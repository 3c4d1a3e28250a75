use sensemaker_widgets::content::{Annotation, Content, Meme, Paper};
use sensemaker_widgets::hash::{AgentPubKey, EntryHash, HeaderHash};
use sensemaker_widgets::host::{HostCall, HostReply, LinkBase};
use sensemaker_widgets::memez;
use sensemaker_widgets::paperz;
use sensemaker_widgets::path::{agent_address, compose_agent_path, compose_entry_hash_path};
use sensemaker_widgets::response::{Effect, Response, ZomeError};
use sensemaker_widgets::sensemaker::{FlatValue, SensemakerEntry, SensemakerRequest, SmTag};
use sensemaker_widgets::session::Session;
use sensemaker_widgets::zome;

fn entry(first: u8) -> EntryHash {
    let mut bytes = vec![0u8; 39];
    bytes[0] = first;
    EntryHash::from_raw_39(bytes).unwrap()
}

fn header(first: u8) -> HeaderHash {
    let mut bytes = vec![1u8; 39];
    bytes[0] = first;
    HeaderHash::from_raw_39(bytes).unwrap()
}

fn agent(first: u8) -> AgentPubKey {
    let mut bytes = vec![2u8; 39];
    bytes[0] = first;
    AgentPubKey::from_raw_39(bytes).unwrap()
}

fn meme(name: &str, blob: &str) -> Meme {
    Meme { filename: name.to_string(), blob_str: blob.to_string() }
}

fn paper(name: &str, blob: &str) -> Paper {
    Paper { filename: name.to_string(), blob_str: blob.to_string() }
}

fn record(first: u8, expr: &str, value: FlatValue) -> Option<(EntryHash, HeaderHash, SensemakerEntry)> {
    Some((
        entry(first),
        header(first),
        SensemakerEntry { expr: expr.to_string(), output_flat_value: value },
    ))
}

/// The call that the endpoint wants next; panics where it has returned.
fn call_of(effect: Effect) -> HostCall {
    match effect {
        Effect::Call(call) => call,
        Effect::Return(outcome) => panic!("returned early: {:?}", outcome),
    }
}

/// The outcome of the endpoint; panics where it wants another call.
fn outcome_of(effect: Effect) -> Result<Response, ZomeError> {
    match effect {
        Effect::Return(outcome) => outcome,
        Effect::Call(call) => panic!("wants another call: {:?}", call),
    }
}

fn expect_fetch(effect: Effect, target: &EntryHash) {
    match call_of(effect) {
        HostCall::Fetch(asked) => assert!(asked.same_as(target)),
        other => panic!("expected a fetch, got {:?}", other),
    }
}

fn expect_score_call(effect: Effect, path: &str) {
    match call_of(effect) {
        HostCall::Sensemaker(SensemakerRequest::GetEntryByPathWithHh { path: asked, tag }) => {
            assert_eq!(asked, path);
            assert_eq!(tag, SmTag::Data);
        }
        other => panic!("expected a read of a score, got {:?}", other),
    }
}

fn expect_anchor_link(effect: Effect, anchor: &str, target: &EntryHash, tag: &str) {
    match call_of(effect) {
        HostCall::Link { base: LinkBase::Anchor(name), target: linked, tag: under } => {
            assert_eq!(name, anchor);
            assert!(linked.same_as(target));
            assert_eq!(under, tag);
        }
        other => panic!("expected a link from an anchor, got {:?}", other),
    }
}

fn expect_host_error(outcome: Result<Response, ZomeError>, message: &str) {
    match outcome {
        Err(ZomeError::Host(text)) => assert_eq!(text, message),
        other => panic!("expected the host's error, got {:?}", other),
    }
}

fn expect_guest_error(outcome: Result<Response, ZomeError>, message: &str) {
    match outcome {
        Err(ZomeError::Guest(text)) => assert_eq!(text, message),
        other => panic!("expected the zome's error, got {:?}", other),
    }
}

fn expect_written(outcome: Result<Response, ZomeError>, at: &EntryHash, by: &HeaderHash) {
    match outcome {
        Ok(Response::Written { entry, header }) => {
            assert!(entry.same_as(at));
            assert!(header.same_as(by));
        }
        other => panic!("expected the two addresses, got {:?}", other),
    }
}

fn memez_path(target: &EntryHash) -> String {
    compose_entry_hash_path(&"widget.memez.memez".to_string(), target.clone())
}

fn agent_path(agent_pk: &AgentPubKey) -> String {
    compose_agent_path(&"widget.paperz.agent".to_string(), agent_pk)
}

#[test]
fn upload_meme_writes_links_and_initializes() {
    let (session, effect) = memez::upload_meme(meme("a.png", "QQ=="));
    match call_of(effect) {
        HostCall::Persist(Content::Meme(written)) => {
            assert_eq!(written.filename, "a.png");
            assert_eq!(written.blob_str, "QQ==");
        }
        other => panic!("expected the meme to be written, got {:?}", other),
    }
    let (session, effect) =
        session.resume(HostReply::Persisted { entry: entry(1), header: header(1) });
    expect_anchor_link(effect, "memez", &entry(1), "meme");
    let (session, effect) = session.resume(HostReply::Linked);
    match call_of(effect) {
        HostCall::Sensemaker(SensemakerRequest::InitializeSmData { path, target }) => {
            assert_eq!(path, "widget.memez.memez");
            assert!(target.same_as(&entry(1)));
        }
        other => panic!("expected the score to be initialized, got {:?}", other),
    }
    let (session, effect) = session.resume(HostReply::Acknowledged);
    expect_written(outcome_of(effect), &entry(1), &header(1));
    assert!(matches!(session, Session::Finished));
}

#[test]
fn upload_meme_fails_where_initialize_fails() {
    let (session, _) = memez::upload_meme(meme("a.png", "QQ=="));
    let (session, _) = session.resume(HostReply::Persisted { entry: entry(1), header: header(1) });
    let (session, _) = session.resume(HostReply::Linked);
    let (session, effect) = session.resume(HostReply::Failed("no sm_init".to_string()));
    expect_host_error(outcome_of(effect), "no sm_init");
    assert!(matches!(session, Session::Finished));
}

#[test]
fn upload_meme_fails_where_the_write_fails() {
    let (session, _) = memez::upload_meme(meme("a.png", "QQ=="));
    let (_, effect) = session.resume(HostReply::Failed("disk full".to_string()));
    expect_host_error(outcome_of(effect), "disk full");
}

#[test]
fn upload_meme_fails_where_the_link_fails() {
    let (session, _) = memez::upload_meme(meme("a.png", "QQ=="));
    let (session, _) = session.resume(HostReply::Persisted { entry: entry(1), header: header(1) });
    let (_, effect) = session.resume(HostReply::Failed("no anchor".to_string()));
    expect_host_error(outcome_of(effect), "no anchor");
}

#[test]
fn upload_refuses_a_reply_to_another_call() {
    let (session, _) = memez::upload_meme(meme("a.png", "QQ=="));
    let (session, effect) = session.resume(HostReply::Linked);
    assert!(matches!(outcome_of(effect), Err(ZomeError::UnexpectedReply)));
    // A finished endpoint takes no more replies.
    let (_, effect) = session.resume(HostReply::Linked);
    assert!(matches!(outcome_of(effect), Err(ZomeError::UnexpectedReply)));

    let (session, _) = memez::upload_meme(meme("a.png", "QQ=="));
    let (session, _) = session.resume(HostReply::Persisted { entry: entry(1), header: header(1) });
    let (_, effect) = session.resume(HostReply::Acknowledged);
    assert!(matches!(outcome_of(effect), Err(ZomeError::UnexpectedReply)));
}

#[test]
fn upload_paper_initializes_the_paper_and_steps_the_agent() {
    let uploader = agent(9);
    let (session, effect) = paperz::upload_paper(paper("p.pdf", "cGRm"), uploader.clone());
    match call_of(effect) {
        HostCall::Persist(Content::Paper(written)) => {
            assert_eq!(written.filename, "p.pdf");
            assert_eq!(written.blob_str, "cGRm");
        }
        other => panic!("expected the paper to be written, got {:?}", other),
    }
    let (session, effect) =
        session.resume(HostReply::Persisted { entry: entry(3), header: header(3) });
    expect_anchor_link(effect, "paperz", &entry(3), "paper");
    let (session, effect) = session.resume(HostReply::Linked);
    match call_of(effect) {
        HostCall::Sensemaker(SensemakerRequest::InitializeSmData { path, target }) => {
            assert_eq!(path, "widget.paperz.paperz");
            assert!(target.same_as(&entry(3)));
        }
        other => panic!("expected the score to be initialized, got {:?}", other),
    }
    let (session, effect) = session.resume(HostReply::Acknowledged);
    match call_of(effect) {
        HostCall::Sensemaker(SensemakerRequest::StepSmPath { path, address, action }) => {
            assert_eq!(path, "widget.paperz.agent");
            assert_eq!(address, agent_address(&uploader));
            assert_eq!(action, "1");
        }
        other => panic!("expected the agent's score to be stepped, got {:?}", other),
    }
    let (_, effect) = session.resume(HostReply::Acknowledged);
    expect_written(outcome_of(effect), &entry(3), &header(3));
}

#[test]
fn create_annotation_links_twice() {
    let annotation = Annotation {
        paper_ref: entry(3),
        page_num: 2,
        paragraph_num: 5,
        what_it_says: "teh".to_string(),
        what_it_should_say: "the".to_string(),
    };
    let (session, effect) = paperz::create_annotation(annotation);
    match call_of(effect) {
        HostCall::Persist(Content::Annotation(written)) => {
            assert!(written.paper_ref.same_as(&entry(3)));
            assert_eq!(written.page_num, 2);
            assert_eq!(written.paragraph_num, 5);
            assert_eq!(written.what_it_says, "teh");
            assert_eq!(written.what_it_should_say, "the");
        }
        other => panic!("expected the annotation to be written, got {:?}", other),
    }
    let (session, effect) =
        session.resume(HostReply::Persisted { entry: entry(4), header: header(4) });
    expect_anchor_link(effect, "annotation", &entry(4), "annotation");
    let (session, effect) = session.resume(HostReply::Linked);
    match call_of(effect) {
        HostCall::Link { base: LinkBase::Entry(from), target, tag } => {
            assert!(from.same_as(&entry(3)));
            assert!(target.same_as(&entry(4)));
            assert_eq!(tag, "annotation");
        }
        other => panic!("expected a link from the paper, got {:?}", other),
    }
    let (session, effect) = session.resume(HostReply::Linked);
    match call_of(effect) {
        HostCall::Sensemaker(SensemakerRequest::InitializeSmData { path, target }) => {
            assert_eq!(path, "widget.paperz.annotationz");
            assert!(target.same_as(&entry(4)));
        }
        other => panic!("expected the score to be initialized, got {:?}", other),
    }
    let (_, effect) = session.resume(HostReply::Acknowledged);
    expect_written(outcome_of(effect), &entry(4), &header(4));
}

#[test]
fn get_all_memez_scores_one_fresh_meme_zero() {
    let asking = agent(9);
    let (session, effect) = memez::get_all_memez("+".to_string(), asking.clone());
    match call_of(effect) {
        HostCall::Enumerate { base: LinkBase::Anchor(name), tag } => {
            assert_eq!(name, "memez");
            assert_eq!(tag, "meme");
        }
        other => panic!("expected the memes to be enumerated, got {:?}", other),
    }
    let (session, effect) = session.resume(HostReply::Targets(vec![entry(1)]));
    expect_fetch(effect, &entry(1));
    let (session, effect) =
        session.resume(HostReply::Fetched(Content::Meme(meme("a.png", "QQ=="))));
    expect_score_call(effect, &memez_path(&entry(1)));
    let (session, effect) =
        session.resume(HostReply::Record(record(11, "0", FlatValue::VInt(0))));
    expect_score_call(effect, &agent_path(&asking));
    let (session, effect) =
        session.resume(HostReply::Record(record(12, "0", FlatValue::VInt(0))));
    match call_of(effect) {
        HostCall::Apply { expr, content_score, agent_score } => {
            assert_eq!(expr, "+");
            assert!(content_score.same_as(&header(11)));
            assert!(agent_score.same_as(&header(12)));
        }
        other => panic!("expected the expression to be applied, got {:?}", other),
    }
    let (_, effect) = session.resume(HostReply::Value(FlatValue::VInt(0)));
    match outcome_of(effect) {
        Ok(Response::Memez(memez)) => {
            assert_eq!(memez.len(), 1);
            assert!(memez[0].0.same_as(&entry(1)));
            assert_eq!(memez[0].1.filename, "a.png");
            assert_eq!(memez[0].1.blob_str, "QQ==");
            assert_eq!(memez[0].2, 0);
        }
        other => panic!("expected the list of memes, got {:?}", other),
    }
}

/// Answers the four calls of one meme with successes.
fn score_meme(session: Session, name: &str, value: FlatValue) -> (Session, Effect) {
    let (session, _) = session.resume(HostReply::Fetched(Content::Meme(meme(name, "QQ=="))));
    let (session, _) = session.resume(HostReply::Record(record(11, "0", FlatValue::VInt(1))));
    let (session, _) = session.resume(HostReply::Record(record(12, "0", FlatValue::VInt(2))));
    session.resume(HostReply::Value(value))
}

#[test]
fn get_all_memez_keeps_the_order_of_the_links() {
    let (session, _) = memez::get_all_memez("+".to_string(), agent(9));
    let (session, effect) =
        session.resume(HostReply::Targets(vec![entry(3), entry(1), entry(2)]));
    expect_fetch(effect, &entry(3));
    let (session, effect) = score_meme(session, "c", FlatValue::VInt(7));
    expect_fetch(effect, &entry(1));
    let (session, effect) = score_meme(session, "a", FlatValue::Other);
    expect_fetch(effect, &entry(2));
    let (_, effect) = score_meme(session, "b", FlatValue::VInt(-4));
    match outcome_of(effect) {
        Ok(Response::Memez(memez)) => {
            assert_eq!(memez.len(), 3);
            assert!(memez[0].0.same_as(&entry(3)));
            assert!(memez[1].0.same_as(&entry(1)));
            assert!(memez[2].0.same_as(&entry(2)));
            assert_eq!(memez[0].1.filename, "c");
            assert_eq!(memez[1].1.filename, "a");
            assert_eq!(memez[2].1.filename, "b");
            // A score that is no integer counts as zero.
            assert_eq!((memez[0].2, memez[1].2, memez[2].2), (7, 0, -4));
        }
        other => panic!("expected the list of memes, got {:?}", other),
    }
}

#[test]
fn get_all_memez_of_nothing_is_empty() {
    let (session, _) = memez::get_all_memez("+".to_string(), agent(9));
    let (_, effect) = session.resume(HostReply::Targets(vec![]));
    match outcome_of(effect) {
        Ok(Response::Memez(memez)) => assert!(memez.is_empty()),
        other => panic!("expected the empty list, got {:?}", other),
    }
}

#[test]
fn get_all_memez_fails_as_a_whole_where_the_second_fetch_fails() {
    let (session, _) = memez::get_all_memez("+".to_string(), agent(9));
    let (session, _) = session.resume(HostReply::Targets(vec![entry(1), entry(2), entry(3)]));
    let (session, effect) = score_meme(session, "a", FlatValue::VInt(1));
    expect_fetch(effect, &entry(2));
    // The second meme cannot be read: it is left out, and the third is read.
    let (session, effect) = session.resume(HostReply::Failed("gone".to_string()));
    expect_fetch(effect, &entry(3));
    let (_, effect) = score_meme(session, "c", FlatValue::VInt(3));
    expect_guest_error(outcome_of(effect), "get_all_memez: gone");
}

#[test]
fn get_all_memez_reports_the_last_failure() {
    let (session, _) = memez::get_all_memez("+".to_string(), agent(9));
    let (session, _) = session.resume(HostReply::Targets(vec![entry(1), entry(2)]));
    let (session, _) = session.resume(HostReply::Failed("first".to_string()));
    let (_, effect) = session.resume(HostReply::Failed("second".to_string()));
    expect_guest_error(outcome_of(effect), "get_all_memez: second");
}

#[test]
fn get_all_memez_fails_where_no_score_is_kept() {
    let (session, _) = memez::get_all_memez("+".to_string(), agent(9));
    let (session, _) = session.resume(HostReply::Targets(vec![entry(1)]));
    let (session, _) = session.resume(HostReply::Fetched(Content::Meme(meme("a", "QQ=="))));
    let (_, effect) = session.resume(HostReply::Record(None));
    expect_guest_error(outcome_of(effect), "get_all_memez: no score is kept");
}

#[test]
fn get_all_memez_fails_on_an_entry_of_another_kind() {
    let (session, _) = memez::get_all_memez("+".to_string(), agent(9));
    let (session, _) = session.resume(HostReply::Targets(vec![entry(1)]));
    let (_, effect) = session.resume(HostReply::Fetched(Content::Paper(paper("p", "cGRm"))));
    expect_guest_error(outcome_of(effect), "get_all_memez: the entry is of another kind");
}

#[test]
fn get_all_memez_fails_where_the_expression_does_not_apply() {
    let (session, _) = memez::get_all_memez("(".to_string(), agent(9));
    let (session, _) = session.resume(HostReply::Targets(vec![entry(1)]));
    let (session, _) = session.resume(HostReply::Fetched(Content::Meme(meme("a", "QQ=="))));
    let (session, _) = session.resume(HostReply::Record(record(11, "0", FlatValue::VInt(0))));
    let (session, _) = session.resume(HostReply::Record(record(12, "0", FlatValue::VInt(0))));
    let (_, effect) = session.resume(HostReply::Failed("parse error".to_string()));
    expect_guest_error(outcome_of(effect), "get_all_memez: parse error");
}

#[test]
fn get_all_memez_fails_where_enumerating_fails() {
    let (session, _) = memez::get_all_memez("+".to_string(), agent(9));
    let (_, effect) = session.resume(HostReply::Failed("no index".to_string()));
    expect_host_error(outcome_of(effect), "no index");
}

#[test]
fn get_all_paperz_lists_in_order() {
    let (session, effect) = paperz::get_all_paperz();
    match call_of(effect) {
        HostCall::Enumerate { base: LinkBase::Anchor(name), tag } => {
            assert_eq!(name, "paperz");
            assert_eq!(tag, "paper");
        }
        other => panic!("expected the papers to be enumerated, got {:?}", other),
    }
    let (session, effect) = session.resume(HostReply::Targets(vec![entry(2), entry(1)]));
    expect_fetch(effect, &entry(2));
    let (session, effect) = session.resume(HostReply::Fetched(Content::Paper(paper("b", "Yg=="))));
    expect_fetch(effect, &entry(1));
    let (_, effect) = session.resume(HostReply::Fetched(Content::Paper(paper("a", "YQ=="))));
    match outcome_of(effect) {
        Ok(Response::Paperz(paperz)) => {
            assert_eq!(paperz.len(), 2);
            assert!(paperz[0].0.same_as(&entry(2)));
            assert_eq!(paperz[0].1.filename, "b");
            assert_eq!(paperz[0].1.blob_str, "Yg==");
            assert!(paperz[1].0.same_as(&entry(1)));
            assert_eq!(paperz[1].1.filename, "a");
        }
        other => panic!("expected the list of papers, got {:?}", other),
    }
}

#[test]
fn get_all_paperz_is_all_or_nothing() {
    let (session, _) = paperz::get_all_paperz();
    let (session, _) = session.resume(HostReply::Targets(vec![entry(1), entry(2), entry(3)]));
    let (session, _) = session.resume(HostReply::Fetched(Content::Paper(paper("a", "YQ=="))));
    let (session, effect) = session.resume(HostReply::Failed("gone".to_string()));
    expect_fetch(effect, &entry(3));
    let (_, effect) = session.resume(HostReply::Fetched(Content::Paper(paper("c", "Yw=="))));
    expect_guest_error(outcome_of(effect), "get_all_paperz: gone");
}

#[test]
fn get_annotations_leaves_out_what_cannot_be_read() {
    let (session, effect) = paperz::get_annotations_for_paper(entry(3));
    match call_of(effect) {
        HostCall::Enumerate { base: LinkBase::Entry(from), tag } => {
            assert!(from.same_as(&entry(3)));
            assert_eq!(tag, "annotation");
        }
        other => panic!("expected the annotations to be enumerated, got {:?}", other),
    }
    let (session, effect) = session.resume(HostReply::Targets(vec![entry(5), entry(6)]));
    expect_fetch(effect, &entry(5));
    let (session, effect) = session.resume(HostReply::Failed("gone".to_string()));
    expect_fetch(effect, &entry(6));
    let kept = Annotation {
        paper_ref: entry(3),
        page_num: 1,
        paragraph_num: 1,
        what_it_says: "x".to_string(),
        what_it_should_say: "y".to_string(),
    };
    let (_, effect) = session.resume(HostReply::Fetched(Content::Annotation(kept)));
    match outcome_of(effect) {
        Ok(Response::Annotations(annotations)) => {
            assert_eq!(annotations.len(), 1);
            assert!(annotations[0].0.same_as(&entry(6)));
            assert_eq!(annotations[0].1.what_it_should_say, "y");
        }
        other => panic!("expected the annotations, got {:?}", other),
    }
}

#[test]
fn clap_steps_the_memes_score_by_one() {
    let (session, effect) = memez::clap_for_meme(entry(1));
    match call_of(effect) {
        HostCall::Sensemaker(SensemakerRequest::StepSm { path, target, action }) => {
            assert_eq!(path, "widget.memez.memez");
            assert!(target.same_as(&entry(1)));
            assert_eq!(action, "1");
        }
        other => panic!("expected a step, got {:?}", other),
    }
    let (_, effect) = session.resume(HostReply::Acknowledged);
    assert!(matches!(outcome_of(effect), Ok(Response::Unit)));
}

#[test]
fn clap_count_is_the_integer_of_the_score() {
    let (session, effect) = memez::meme_clap_count(entry(1));
    expect_score_call(effect, &memez_path(&entry(1)));
    let (_, effect) = session.resume(HostReply::Record(record(11, "+", FlatValue::VInt(5))));
    assert!(matches!(outcome_of(effect), Ok(Response::ClapCount(Some(5)))));

    let (session, _) = memez::meme_clap_count(entry(1));
    let (_, effect) = session.resume(HostReply::Record(record(11, "+", FlatValue::Other)));
    assert!(matches!(outcome_of(effect), Ok(Response::ClapCount(None))));

    let (session, _) = memez::meme_clap_count(entry(1));
    let (_, effect) = session.resume(HostReply::Record(None));
    assert!(matches!(outcome_of(effect), Ok(Response::ClapCount(None))));

    let (session, _) = memez::meme_clap_count(entry(1));
    let (_, effect) = session.resume(HostReply::Failed("down".to_string()));
    expect_host_error(outcome_of(effect), "down");
}

#[test]
fn memez_get_sm_data_reads_the_record() {
    let (session, effect) = memez::get_sm_data(entry(1));
    expect_score_call(effect, &memez_path(&entry(1)));
    let (_, effect) = session.resume(HostReply::Record(record(11, "0", FlatValue::VInt(0))));
    match outcome_of(effect) {
        Ok(Response::Record(Some((address, written_by, kept)))) => {
            assert!(address.same_as(&entry(11)));
            assert!(written_by.same_as(&header(11)));
            assert_eq!(kept.expr, "0");
            assert_eq!(kept.output_flat_value, FlatValue::VInt(0));
        }
        other => panic!("expected the record, got {:?}", other),
    }
}

#[test]
fn paperz_get_sm_data_reads_the_entry() {
    let (session, effect) = paperz::get_sm_data(entry(4));
    match call_of(effect) {
        HostCall::Sensemaker(SensemakerRequest::GetEntryByPath { path, tag }) => {
            let expected =
                compose_entry_hash_path(&"widget.paperz.annotationz".to_string(), entry(4));
            assert_eq!(path, expected);
            assert_eq!(tag, SmTag::Data);
        }
        other => panic!("expected a read, got {:?}", other),
    }
    let (_, effect) = session.resume(HostReply::Entry(None));
    assert!(matches!(outcome_of(effect), Ok(Response::Entry(None))));
}

#[test]
fn init_agent_sm_data_sends_path_and_address() {
    let (session, effect) =
        paperz::init_agent_sm_data("widget.paperz.agent".to_string(), "abc".to_string());
    match call_of(effect) {
        HostCall::Sensemaker(SensemakerRequest::InitializeSmDataPath { path, address }) => {
            assert_eq!(path, "widget.paperz.agent");
            assert_eq!(address, "abc");
        }
        other => panic!("expected an initialization, got {:?}", other),
    }
    let (_, effect) = session.resume(HostReply::Acknowledged);
    assert!(matches!(outcome_of(effect), Ok(Response::Unit)));
}

#[test]
fn set_sm_init_returns_true_once_taken() {
    let (session, effect) = zome::set_sm_init("p".to_string(), "0".to_string());
    match call_of(effect) {
        HostCall::Sensemaker(SensemakerRequest::SetEntryParseRlExpr { path, tag, expr }) => {
            assert_eq!(path, "p");
            assert_eq!(tag, SmTag::Init);
            assert_eq!(expr, "0");
        }
        other => panic!("expected a set, got {:?}", other),
    }
    let (_, effect) = session.resume(HostReply::Acknowledged);
    assert!(matches!(outcome_of(effect), Ok(Response::Flag(true))));
}

#[test]
fn set_sm_comp_passes_the_cells_error_on() {
    let (session, effect) = zome::set_sm_comp("p".to_string(), "(".to_string());
    match call_of(effect) {
        HostCall::Sensemaker(SensemakerRequest::SetEntryParseRlExpr { path, tag, expr }) => {
            assert_eq!(path, "p");
            assert_eq!(tag, SmTag::Comp);
            assert_eq!(expr, "(");
        }
        other => panic!("expected a set, got {:?}", other),
    }
    let (_, effect) = session.resume(HostReply::Failed("unbalanced".to_string()));
    expect_host_error(outcome_of(effect), "unbalanced");
}

#[test]
fn get_sm_init_and_comp_ask_under_their_tags() {
    let (session, effect) = zome::get_sm_init("p".to_string());
    match call_of(effect) {
        HostCall::Sensemaker(SensemakerRequest::GetEntryByPath { path, tag }) => {
            assert_eq!(path, "p");
            assert_eq!(tag, SmTag::Init);
        }
        other => panic!("expected a read, got {:?}", other),
    }
    let found = Some((
        entry(7),
        SensemakerEntry { expr: "0".to_string(), output_flat_value: FlatValue::VInt(0) },
    ));
    let (_, effect) = session.resume(HostReply::Entry(found));
    match outcome_of(effect) {
        Ok(Response::Entry(Some((address, kept)))) => {
            assert!(address.same_as(&entry(7)));
            assert_eq!(kept.expr, "0");
        }
        other => panic!("expected the entry, got {:?}", other),
    }
    let (session, effect) = zome::get_sm_comp("p".to_string());
    match call_of(effect) {
        HostCall::Sensemaker(SensemakerRequest::GetEntryByPath { path, tag }) => {
            assert_eq!(path, "p");
            assert_eq!(tag, SmTag::Comp);
        }
        other => panic!("expected a read, got {:?}", other),
    }
    // The reply to a read with the record's address is not the reply asked for.
    let (_, effect) = session.resume(HostReply::Record(None));
    assert!(matches!(outcome_of(effect), Err(ZomeError::UnexpectedReply)));
}

#[test]
fn step_sm_path_remote_sends_three_texts() {
    let (session, effect) =
        zome::step_sm_path_remote("ns".to_string(), "addr".to_string(), "1".to_string());
    match call_of(effect) {
        HostCall::Sensemaker(request) => {
            assert_eq!(request.function_name(), "step_sm_path");
            let payload = request.payload();
            assert_eq!(payload.len(), 3);
        }
        other => panic!("expected a step, got {:?}", other),
    }
    let (_, effect) = session.resume(HostReply::Acknowledged);
    assert!(matches!(outcome_of(effect), Ok(Response::Unit)));
}

#[test]
fn upload_paper_fails_where_initialize_fails() {
    let (session, _) = paperz::upload_paper(paper("p.pdf", "cGRm"), agent(9));
    let (session, _) = session.resume(HostReply::Persisted { entry: entry(3), header: header(3) });
    let (session, _) = session.resume(HostReply::Linked);
    // The cell keeps no score for the paper: the upload ends here, and the
    // agent's score is not stepped.
    let (session, effect) = session.resume(HostReply::Failed("no sm_init".to_string()));
    expect_host_error(outcome_of(effect), "no sm_init");
    assert!(matches!(session, Session::Finished));
}

#[test]
fn upload_paper_fails_where_the_step_fails() {
    let (session, _) = paperz::upload_paper(paper("p.pdf", "cGRm"), agent(9));
    let (session, _) = session.resume(HostReply::Persisted { entry: entry(3), header: header(3) });
    let (session, _) = session.resume(HostReply::Linked);
    let (session, _) = session.resume(HostReply::Acknowledged);
    let (_, effect) = session.resume(HostReply::Failed("no agent".to_string()));
    expect_host_error(outcome_of(effect), "no agent");
}
