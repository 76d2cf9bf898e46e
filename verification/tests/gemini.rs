use ai_tuber::error::Error;
use ai_tuber::model::gemini;
use ai_tuber::model::gemini_dto::{
    Candidate, Content, GenerateReq, GenerateRes, RespContent, RespPart,
};
use ai_tuber::service::gemini::{endpoint, endpoint_base, endpoint_from, endpoint_with_key, reply_of};

fn candidate(texts: &[&str]) -> Candidate {
    Candidate {
        content: RespContent {
            parts: texts.iter().map(|t| RespPart { text: t.to_string() }).collect(),
        },
    }
}

#[test]
fn first_text_of_the_first_candidate() {
    let res = GenerateRes { candidates: vec![candidate(&["a", "b"]), candidate(&["c"])] };
    assert_eq!(res.first_text(), "a");
}

#[test]
fn first_text_without_candidates_is_empty() {
    let res = GenerateRes { candidates: vec![] };
    assert_eq!(res.first_text(), "");
}

#[test]
fn first_text_skips_candidates_without_parts() {
    let res = GenerateRes { candidates: vec![candidate(&[]), candidate(&[]), candidate(&["x"])] };
    assert_eq!(res.first_text(), "x");
    let res = GenerateRes { candidates: vec![candidate(&[]), candidate(&[])] };
    assert_eq!(res.first_text(), "");
}

#[test]
fn reply_of_is_the_first_text() {
    let res = gemini::GenerateRes { candidates: vec![candidate(&["[happy]hi"])] };
    assert_eq!(reply_of(res), "[happy]hi");
}

#[test]
fn request_from_a_prompt_has_one_system_entry() {
    let req = GenerateReq::from("be kind");
    assert_eq!(req.contents.len(), 1);
    assert_eq!(req.contents[0].role, "system");
    assert_eq!(req.contents[0].parts.len(), 1);
    assert_eq!(req.contents[0].parts[0].text, "be kind");
}

#[test]
fn single_prompt_request_carries_the_prompt() {
    let req = gemini::GenerateReq::from("こんにちは");
    assert_eq!(req.contents[0].parts[0].text, "こんにちは");
}

#[test]
fn single_entry_holds_one_part() {
    let c = Content::single("user", "t".to_string());
    assert_eq!(c.role, "user");
    assert_eq!(c.parts.len(), 1);
    assert_eq!(c.parts[0].text, "t");
}

#[test]
fn endpoint_base_names_the_model() {
    assert_eq!(
        endpoint_base("gemini-2.0-flash"),
        "https://generativelanguage.googleapis.com/v1beta/models/gemini-2.0-flash:generateContent"
    );
}

#[test]
fn endpoint_with_key_appends_the_key_as_it_stands() {
    assert_eq!(
        endpoint_with_key("m", "a b"),
        "https://generativelanguage.googleapis.com/v1beta/models/m:generateContent?key=a b"
    );
}

#[test]
fn endpoint_carries_the_key_as_query() {
    let url = endpoint("abc123", "gemini-2.0-flash").expect("a well-formed endpoint");
    assert_eq!(
        url,
        "https://generativelanguage.googleapis.com/v1beta/models/gemini-2.0-flash:generateContent?key=abc123"
    );
}

#[test]
fn endpoint_escapes_the_key() {
    let url = endpoint("a b&c", "m").expect("a well-formed endpoint");
    assert_eq!(
        url,
        "https://generativelanguage.googleapis.com/v1beta/models/m:generateContent?key=a+b%26c"
    );
}

#[test]
fn endpoint_from_nothing_is_an_error() {
    match endpoint_from(None) {
        Err(Error::External(text)) => assert_eq!(text, "construct endpoint url"),
        other => panic!("unexpected: {:?}", other),
    }
    assert_eq!(endpoint_from(Some("u".to_string())).expect("the url handed in"), "u");
}

#[test]
fn first_candidate_text_looks_at_the_first_candidate_only() {
    let res = GenerateRes { candidates: vec![candidate(&["a", "b"]), candidate(&["c"])] };
    assert_eq!(res.first_candidate_text(), "a");
    let res = GenerateRes { candidates: vec![candidate(&[]), candidate(&["c"])] };
    assert_eq!(res.first_candidate_text(), "");
    assert_eq!(res.first_text(), "c");
    let res = GenerateRes { candidates: vec![] };
    assert_eq!(res.first_candidate_text(), "");
}
