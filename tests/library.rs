use arxiv_slack::model::{Choice, Message, PaperRecord, Root, Usage};
use arxiv_slack::pipeline::{plan_post, report_line, search_params, Config, POSTED_LINE};
use arxiv_slack::publisher::{read_publish, slack_message};
use arxiv_slack::sampler::{pick_indices, sample_papers, sample_size, select};
use arxiv_slack::status::{classify_status, CallError};
use arxiv_slack::translator::{
    bearer, build_request, format_translation, read_translation, user_prompt, MODEL,
    SYSTEM_PROMPT,
};

fn paper(n: usize) -> PaperRecord {
    PaperRecord::new(
        format!("Title {}", n),
        format!("Summary {}", n),
        format!("2023-01-0{}", n),
        format!("http://arxiv.org/pdf/{}", n),
    )
}

fn papers(count: usize) -> Vec<PaperRecord> {
    (0..count).map(paper).collect()
}

fn answer(contents: &[&str]) -> Root {
    Root {
        id: "chatcmpl-1".to_string(),
        object: "chat.completion".to_string(),
        created: 1700000000,
        model: "gpt-3.5-turbo".to_string(),
        usage: Usage { prompt_tokens: 10, completion_tokens: 20, total_tokens: 30 },
        choices: contents
            .iter()
            .enumerate()
            .map(|(i, c)| Choice {
                message: Message { role: "assistant".to_string(), content: c.to_string() },
                finish_reason: "stop".to_string(),
                index: i as i64,
            })
            .collect(),
    }
}

fn position_of(all: &[PaperRecord], p: &PaperRecord) -> usize {
    all.iter().position(|q| q == p).expect("a sampled paper comes from the input")
}

#[test]
fn status_200_is_success() {
    assert_eq!(classify_status(200), Ok(()));
}

#[test]
fn status_401_is_authorization() {
    assert_eq!(classify_status(401), Err(CallError::Authorization));
}

#[test]
fn status_429_is_rate_limit() {
    assert_eq!(classify_status(429), Err(CallError::RateLimit));
}

#[test]
fn other_statuses_are_unexpected() {
    assert_eq!(classify_status(500), Err(CallError::UnexpectedStatus(500)));
    assert_eq!(classify_status(404), Err(CallError::UnexpectedStatus(404)));
    assert_eq!(classify_status(201), Err(CallError::UnexpectedStatus(201)));
}

#[test]
fn error_messages() {
    assert_eq!(
        CallError::Authorization.message(),
        "🛑 Status: UNAUTHORIZED - Need to grab a new token"
    );
    assert_eq!(CallError::RateLimit.message(), "🛑 Status: 429 - Too many requests");
    assert_eq!(
        CallError::MalformedResponse.message(),
        "🛑 Hm, the response didn't match the shape we expected."
    );
    assert_eq!(
        CallError::UnexpectedStatus(503).message(),
        "🛑 Status: {:#?} - Something unexpected happened"
    );
}

#[test]
fn sample_size_is_at_most_three() {
    assert_eq!(sample_size(0), 0);
    assert_eq!(sample_size(1), 1);
    assert_eq!(sample_size(2), 2);
    assert_eq!(sample_size(3), 3);
    assert_eq!(sample_size(5), 3);
    assert_eq!(sample_size(10), 3);
}

#[test]
fn pick_indices_distinct_and_in_range() {
    for n in 0..12usize {
        let idx = pick_indices(n);
        assert_eq!(idx.len(), n.min(3));
        for (a, x) in idx.iter().enumerate() {
            assert!(*x < n);
            for y in idx.iter().skip(a + 1) {
                assert_ne!(x, y);
            }
        }
    }
}

#[test]
fn select_keeps_order_of_positions() {
    let all = papers(5);
    let r = select(&all, &vec![4, 0, 2]);
    assert_eq!(r.len(), 3);
    assert_eq!(r[0], all[4]);
    assert_eq!(r[1], all[0]);
    assert_eq!(r[2], all[2]);
}

#[test]
fn five_papers_give_three_distinct() {
    let all = papers(5);
    let r = sample_papers(&all);
    assert_eq!(r.len(), 3);
    let mut pos: Vec<usize> = r.iter().map(|p| position_of(&all, p)).collect();
    pos.sort();
    pos.dedup();
    assert_eq!(pos.len(), 3);
}

#[test]
fn five_papers_reach_every_three_subset() {
    let all = papers(5);
    let mut seen = std::collections::HashSet::new();
    for _ in 0..3000 {
        let r = sample_papers(&all);
        let mut pos: Vec<usize> = r.iter().map(|p| position_of(&all, p)).collect();
        pos.sort();
        seen.insert(pos);
    }
    assert_eq!(seen.len(), 10);
}

#[test]
fn one_paper_gives_that_paper() {
    let all = papers(1);
    let r = sample_papers(&all);
    assert_eq!(r, all);
}

#[test]
fn no_papers_give_none() {
    assert!(sample_papers(&Vec::new()).is_empty());
}

#[test]
fn two_papers_give_both() {
    let all = papers(2);
    let r = sample_papers(&all);
    assert_eq!(r.len(), 2);
    assert_ne!(r[0], r[1]);
}

#[test]
fn inclusion_frequency_near_k_over_n() {
    let all = papers(6);
    let runs = 6000;
    let mut hits = vec![0usize; 6];
    for _ in 0..runs {
        for p in sample_papers(&all) {
            hits[position_of(&all, &p)] += 1;
        }
    }
    // each paper is expected in half of the runs
    for h in hits {
        assert!(h > runs * 4 / 10 && h < runs * 6 / 10, "{}", h);
    }
}

#[test]
fn bearer_header() {
    assert_eq!(bearer("abc123"), "Bearer abc123");
    assert_eq!(bearer(""), "Bearer ");
}

#[test]
fn user_prompt_labels_title_and_summary() {
    assert_eq!(user_prompt(&paper(1)), "title: Title 1\nsummary: Summary 1");
}

#[test]
fn request_has_system_then_user() {
    let body = build_request(&paper(2));
    assert_eq!(body.model, MODEL);
    assert_eq!(body.model, "gpt-3.5-turbo");
    assert_eq!(body.messages.len(), 2);
    assert_eq!(body.messages[0].role, "system");
    assert_eq!(body.messages[0].content, SYSTEM_PROMPT);
    assert!(body.messages[0].content.starts_with("与えられた英語の論文を日本語に訳し"));
    assert_eq!(body.messages[1].role, "user");
    assert_eq!(body.messages[1].content, "title: Title 2\nsummary: Summary 2");
}

#[test]
fn translation_text_lines() {
    let text = format_translation(&paper(3), &"タイトル:\nテスト".to_string());
    assert_eq!(
        text,
        "発行日: 2023-01-03\nhttp://arxiv.org/pdf/3\nTitle 3\nタイトル:\nテスト\n"
    );
}

#[test]
fn read_translation_ok_uses_first_choice() {
    let r = read_translation(200, &Some(answer(&["first", "second"])), &paper(4));
    assert_eq!(
        r,
        Ok("発行日: 2023-01-04\nhttp://arxiv.org/pdf/4\nTitle 4\nfirst\n".to_string())
    );
}

#[test]
fn read_translation_empty_choices_malformed() {
    let r = read_translation(200, &Some(answer(&[])), &paper(1));
    assert_eq!(r, Err(CallError::MalformedResponse));
}

#[test]
fn read_translation_unparsed_body_malformed() {
    let r = read_translation(200, &None, &paper(1));
    assert_eq!(r, Err(CallError::MalformedResponse));
}

#[test]
fn read_translation_classifies_status() {
    let body = Some(answer(&["x"]));
    assert_eq!(read_translation(401, &body, &paper(1)), Err(CallError::Authorization));
    assert_eq!(read_translation(429, &body, &paper(1)), Err(CallError::RateLimit));
    assert_eq!(
        read_translation(500, &body, &paper(1)),
        Err(CallError::UnexpectedStatus(500))
    );
}

#[test]
fn read_publish_passes_body_through() {
    assert_eq!(read_publish(200, "{\"ok\":true}".to_string()), Ok("{\"ok\":true}".to_string()));
}

#[test]
fn read_publish_classifies_status() {
    assert_eq!(read_publish(401, String::new()), Err(CallError::Authorization));
    assert_eq!(read_publish(429, String::new()), Err(CallError::RateLimit));
    assert_eq!(read_publish(502, String::new()), Err(CallError::UnexpectedStatus(502)));
}

#[test]
fn slack_message_fields() {
    let m = slack_message(&"#papers".to_string(), "hello".to_string());
    assert_eq!(m.channel, "#papers");
    assert_eq!(m.text, "hello");
}

#[test]
fn search_is_newest_first() {
    let s = search_params(&"cat:cs.AI".to_string());
    assert_eq!(s.query, "cat:cs.AI");
    assert_eq!(s.start, 0);
    assert_eq!(s.max_results, 10);
    assert_eq!(s.sort_by, "submittedDate");
    assert_eq!(s.sort_order, "descending");
}

#[test]
fn config_keeps_values() {
    let c = Config::new("q".to_string(), "k".to_string(), "t".to_string(), "c".to_string());
    assert_eq!(c.search_query, "q");
    assert_eq!(c.openai_key, "k");
    assert_eq!(c.slack_token, "t");
    assert_eq!(c.slack_channel, "c");
}

#[test]
fn translate_then_publish_reports_success() {
    let p = paper(1);
    let translated = read_translation(200, &Some(answer(&["訳"])), &p);
    let post = plan_post(translated, &"#papers".to_string()).expect("a translated item is posted");
    assert_eq!(post.channel, "#papers");
    assert_eq!(post.text, "発行日: 2023-01-01\nhttp://arxiv.org/pdf/1\nTitle 1\n訳\n");
    let published = read_publish(200, "ok".to_string());
    assert_eq!(report_line(&published), POSTED_LINE);
    assert_eq!(report_line(&published), "🎉 Successfully posted to Slack");
}

#[test]
fn unauthorized_translation_is_skipped() {
    let translated = read_translation(401, &Some(answer(&["x"])), &paper(1));
    assert_eq!(translated, Err(CallError::Authorization));
    assert_eq!(
        report_line(&translated),
        "🛑 Status: UNAUTHORIZED - Need to grab a new token"
    );
    assert!(plan_post(translated, &"#papers".to_string()).is_none());
}

#[test]
fn failed_publish_reports_error() {
    let published = read_publish(429, String::new());
    assert_eq!(report_line(&published), "🛑 Status: 429 - Too many requests");
}
