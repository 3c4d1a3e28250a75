use std::collections::HashMap;

use sensemaker_widgets::content::{Annotation, Content, Meme, Paper};
use sensemaker_widgets::hash::{AgentPubKey, EntryHash, HeaderHash};
use sensemaker_widgets::host::{HostCall, HostReply, LinkBase};
use sensemaker_widgets::memez;
use sensemaker_widgets::paperz;
use sensemaker_widgets::path::{
    agent_address, compose_entry_hash_path, compose_paths, entry_address,
};
use sensemaker_widgets::response::{Effect, Response, ZomeError};
use sensemaker_widgets::sensemaker::{FlatValue, SensemakerEntry, SensemakerRequest, SmTag};
use sensemaker_widgets::session::Session;
use sensemaker_widgets::zome;

/// A host in memory: entries stay where they were written, links are listed
/// in the order in which they were made, and under each path and tag the
/// latest entry wins. Expressions are integers, or `+`.
struct MemoryHost {
    entries: HashMap<Vec<u8>, Content>,
    links: Vec<(String, Vec<u8>, String)>,
    kept: HashMap<(String, String), (Vec<u8>, Vec<u8>, String, FlatValue)>,
    writes: u64,
}

fn copy_of(content: &Content) -> Content {
    match content {
        Content::Meme(meme) => Content::Meme(meme.clone()),
        Content::Paper(paper) => Content::Paper(paper.clone()),
        Content::Annotation(annotation) => Content::Annotation(Annotation {
            paper_ref: annotation.paper_ref.clone(),
            page_num: annotation.page_num,
            paragraph_num: annotation.paragraph_num,
            what_it_says: annotation.what_it_says.clone(),
            what_it_should_say: annotation.what_it_should_say.clone(),
        }),
    }
}

/// 39 bytes that depend on every byte of `text`.
fn digest(kind: u8, text: &str) -> Vec<u8> {
    let mut state: u64 = 0xcbf29ce484222325;
    for byte in text.bytes() {
        state = (state ^ byte as u64).wrapping_mul(0x100000001b3);
    }
    let mut bytes = vec![kind; 3];
    for round in 0..36u64 {
        state = (state ^ round).wrapping_mul(0x100000001b3);
        bytes.push((state >> 32) as u8);
    }
    bytes
}

fn address_of(content: &Content) -> Vec<u8> {
    match content {
        Content::Meme(meme) => digest(1, &format!("meme {} {}", meme.filename, meme.blob_str)),
        Content::Paper(paper) => digest(1, &format!("paper {} {}", paper.filename, paper.blob_str)),
        Content::Annotation(annotation) => digest(
            1,
            &format!(
                "annotation {} {} {} {}",
                annotation.page_num,
                annotation.paragraph_num,
                annotation.what_it_says,
                annotation.what_it_should_say
            ),
        ),
    }
}

fn value_of(expr: &str) -> Option<FlatValue> {
    if expr == "+" {
        Some(FlatValue::Other)
    } else {
        expr.parse::<i64>().ok().map(FlatValue::VInt)
    }
}

fn sum(left: FlatValue, right: FlatValue) -> Option<FlatValue> {
    match (left, right) {
        (FlatValue::VInt(x), FlatValue::VInt(y)) => Some(FlatValue::VInt(x + y)),
        _ => None,
    }
}

fn refused() -> HostReply {
    HostReply::Failed("refused".to_string())
}

fn base_key(base: &LinkBase) -> String {
    match base {
        LinkBase::Anchor(name) => format!("anchor {}", name),
        LinkBase::Entry(entry) => format!("entry {:?}", entry.get_raw_39()),
    }
}

impl MemoryHost {
    fn new() -> MemoryHost {
        MemoryHost { entries: HashMap::new(), links: Vec::new(), kept: HashMap::new(), writes: 0 }
    }

    fn next_header(&mut self) -> Vec<u8> {
        self.writes += 1;
        digest(2, &format!("write {}", self.writes))
    }

    fn keep(&mut self, path: String, tag: SmTag, expr: String, value: FlatValue) {
        let address = digest(3, &format!("{} {:?}", expr, value));
        let header = self.next_header();
        self.kept.insert((path, tag.as_str().to_string()), (address, header, expr, value));
    }

    fn lookup(&self, path: &str, tag: SmTag) -> Option<(EntryHash, HeaderHash, SensemakerEntry)> {
        self.kept.get(&(path.to_string(), tag.as_str().to_string())).map(|kept| {
            (
                EntryHash::from_raw_39(kept.0.clone()).unwrap(),
                HeaderHash::from_raw_39(kept.1.clone()).unwrap(),
                SensemakerEntry { expr: kept.2.clone(), output_flat_value: kept.3 },
            )
        })
    }

    fn value_written_by(&self, header: &HeaderHash) -> Option<FlatValue> {
        self.kept.values().find(|kept| &kept.1 == header.get_raw_39()).map(|kept| kept.3)
    }

    fn initialize(&mut self, namespace: String, path: String) -> HostReply {
        if self.lookup(&path, SmTag::Data).is_some() {
            return HostReply::Acknowledged;
        }
        match self.lookup(&namespace, SmTag::Init) {
            Some((_, _, init)) => {
                self.keep(path, SmTag::Data, init.expr, init.output_flat_value);
                HostReply::Acknowledged
            }
            None => refused(),
        }
    }

    fn advance(&mut self, namespace: String, path: String, action: String) -> HostReply {
        let comp = self.lookup(&namespace, SmTag::Comp);
        let data = self.lookup(&path, SmTag::Data);
        match (comp, data, value_of(&action)) {
            (Some((_, _, comp)), Some((_, _, data)), Some(step)) if comp.expr == "+" => {
                match sum(data.output_flat_value, step) {
                    Some(value) => {
                        self.keep(path, SmTag::Data, comp.expr, value);
                        HostReply::Acknowledged
                    }
                    None => refused(),
                }
            }
            _ => refused(),
        }
    }

    fn serve(&mut self, request: SensemakerRequest) -> HostReply {
        match request {
            SensemakerRequest::GetEntryByPath { path, tag } => HostReply::Entry(
                self.lookup(&path, tag).map(|(address, _, entry)| (address, entry)),
            ),
            SensemakerRequest::GetEntryByPathWithHh { path, tag } => {
                HostReply::Record(self.lookup(&path, tag))
            }
            SensemakerRequest::SetEntryParseRlExpr { path, tag, expr } => match value_of(&expr) {
                Some(value) => {
                    self.keep(path, tag, expr, value);
                    HostReply::Acknowledged
                }
                None => refused(),
            },
            SensemakerRequest::InitializeSmData { path, target } => {
                let data_path = compose_entry_hash_path(&path, target);
                self.initialize(path, data_path)
            }
            SensemakerRequest::InitializeSmDataPath { path, address } => {
                let data_path = compose_paths(&path, &address);
                self.initialize(path, data_path)
            }
            SensemakerRequest::StepSm { path, target, action } => {
                let data_path = compose_entry_hash_path(&path, target);
                self.advance(path, data_path, action)
            }
            SensemakerRequest::StepSmPath { path, address, action } => {
                let data_path = compose_paths(&path, &address);
                self.advance(path, data_path, action)
            }
        }
    }

    fn answer(&mut self, call: HostCall) -> HostReply {
        match call {
            HostCall::Persist(content) => {
                let address = address_of(&content);
                self.entries.insert(address.clone(), content);
                HostReply::Persisted {
                    entry: EntryHash::from_raw_39(address).unwrap(),
                    header: HeaderHash::from_raw_39(self.next_header()).unwrap(),
                }
            }
            HostCall::Link { base, target, tag } => {
                self.links.push((base_key(&base), target.into_inner(), tag));
                self.writes += 1;
                HostReply::Linked
            }
            HostCall::Enumerate { base, tag } => {
                let from = base_key(&base);
                HostReply::Targets(
                    self.links
                        .iter()
                        .filter(|link| link.0 == from && link.2 == tag)
                        .map(|link| EntryHash::from_raw_39(link.1.clone()).unwrap())
                        .collect(),
                )
            }
            HostCall::Fetch(entry) => match self.entries.get(entry.get_raw_39()) {
                Some(content) => HostReply::Fetched(copy_of(content)),
                None => refused(),
            },
            HostCall::Sensemaker(request) => self.serve(request),
            HostCall::Apply { expr, content_score, agent_score } => {
                let left = self.value_written_by(&content_score);
                let right = self.value_written_by(&agent_score);
                match (expr.as_str(), left, right) {
                    ("+", Some(left), Some(right)) => match sum(left, right) {
                        Some(value) => HostReply::Value(value),
                        None => refused(),
                    },
                    _ => refused(),
                }
            }
        }
    }

    /// Runs an endpoint to its end.
    fn run(&mut self, start: (Session, Effect)) -> Result<Response, ZomeError> {
        let (mut session, mut effect) = start;
        loop {
            match effect {
                Effect::Return(outcome) => return outcome,
                Effect::Call(call) => {
                    let reply = self.answer(call);
                    let after = session.resume(reply);
                    session = after.0;
                    effect = after.1;
                }
            }
        }
    }
}

fn agent(first: u8) -> AgentPubKey {
    let mut bytes = vec![2u8; 39];
    bytes[0] = first;
    AgentPubKey::from_raw_39(bytes).unwrap()
}

fn meme(name: &str, blob: &str) -> Meme {
    Meme { filename: name.to_string(), blob_str: blob.to_string() }
}

fn paper(name: &str, blob: &str) -> Paper {
    Paper { filename: name.to_string(), blob_str: blob.to_string() }
}

fn written(outcome: Result<Response, ZomeError>) -> (EntryHash, HeaderHash) {
    match outcome {
        Ok(Response::Written { entry, header }) => (entry, header),
        other => panic!("expected the two addresses, got {:?}", other),
    }
}

fn listed_memez(outcome: Result<Response, ZomeError>) -> Vec<(EntryHash, Meme, i64)> {
    match outcome {
        Ok(Response::Memez(memez)) => memez,
        other => panic!("expected the list of memes, got {:?}", other),
    }
}

fn flag(outcome: Result<Response, ZomeError>) -> bool {
    match outcome {
        Ok(Response::Flag(flag)) => flag,
        other => panic!("expected a flag, got {:?}", other),
    }
}

fn clap_count(outcome: Result<Response, ZomeError>) -> Option<i64> {
    match outcome {
        Ok(Response::ClapCount(count)) => count,
        other => panic!("expected a count, got {:?}", other),
    }
}

/// A host where memes and agents start at zero and actions add up.
fn host_with_scores(asking: &AgentPubKey) -> MemoryHost {
    let mut host = MemoryHost::new();
    for namespace in [
        "widget.memez.memez",
        "widget.paperz.paperz",
        "widget.paperz.agent",
        "widget.paperz.annotationz",
    ] {
        assert!(flag(host.run(zome::set_sm_init(namespace.to_string(), "0".to_string()))));
        assert!(flag(host.run(zome::set_sm_comp(namespace.to_string(), "+".to_string()))));
    }
    let started =
        paperz::init_agent_sm_data("widget.paperz.agent".to_string(), agent_address(asking));
    assert!(matches!(host.run(started), Ok(Response::Unit)));
    host
}

#[test]
fn uploaded_meme_is_listed_with_score_zero() {
    let asking = agent(9);
    let mut host = host_with_scores(&asking);
    let (entry_hash_1, _header_hash_1) = written(host.run(memez::upload_meme(meme("a.png", "QQ=="))));
    let memez = listed_memez(host.run(memez::get_all_memez("+".to_string(), asking)));
    assert_eq!(memez.len(), 1);
    assert!(memez[0].0.same_as(&entry_hash_1));
    assert_eq!(memez[0].1.filename, "a.png");
    assert_eq!(memez[0].1.blob_str, "QQ==");
    assert_eq!(memez[0].2, 0);
}

#[test]
fn every_uploaded_meme_is_listed_as_uploaded() {
    let asking = agent(9);
    let mut host = host_with_scores(&asking);
    let (first, _) = written(host.run(memez::upload_meme(meme("a.png", "QQ=="))));
    let (second, _) = written(host.run(memez::upload_meme(meme("b.png", "Qg=="))));
    let memez = listed_memez(host.run(memez::get_all_memez("+".to_string(), asking)));
    assert_eq!(memez.len(), 2);
    assert!(memez[0].0.same_as(&first));
    assert_eq!((memez[0].1.filename.as_str(), memez[0].1.blob_str.as_str()), ("a.png", "QQ=="));
    assert!(memez[1].0.same_as(&second));
    assert_eq!((memez[1].1.filename.as_str(), memez[1].1.blob_str.as_str()), ("b.png", "Qg=="));
}

#[test]
fn uploaded_paper_is_listed_and_counts_for_its_agent() {
    let uploader = agent(9);
    let mut host = host_with_scores(&uploader);
    let (address, _) =
        written(host.run(paperz::upload_paper(paper("p.pdf", "cGRm"), uploader.clone())));
    match host.run(paperz::get_all_paperz()) {
        Ok(Response::Paperz(paperz)) => {
            assert_eq!(paperz.len(), 1);
            assert!(paperz[0].0.same_as(&address));
            assert_eq!(paperz[0].1.filename, "p.pdf");
            assert_eq!(paperz[0].1.blob_str, "cGRm");
        }
        other => panic!("expected the list of papers, got {:?}", other),
    }
    let agent_path = compose_paths(&"widget.paperz.agent".to_string(), &agent_address(&uploader));
    match host.run(zome::get_sm_generic(agent_path, SmTag::Data)) {
        Ok(Response::Entry(Some((_, kept)))) => {
            assert_eq!(kept.output_flat_value, FlatValue::VInt(1));
        }
        other => panic!("expected the agent's score, got {:?}", other),
    }
    // A score is kept for the paper itself, seeded from the papers' namespace.
    let paper_path = compose_entry_hash_path(&"widget.paperz.paperz".to_string(), address);
    match host.run(zome::get_sm_generic(paper_path, SmTag::Data)) {
        Ok(Response::Entry(Some((_, kept)))) => {
            assert_eq!(kept.expr, "0");
            assert_eq!(kept.output_flat_value, FlatValue::VInt(0));
        }
        other => panic!("expected the paper's score, got {:?}", other),
    }
}

#[test]
fn two_papers_have_two_paths_and_two_scores() {
    let uploader = agent(9);
    let mut host = host_with_scores(&uploader);
    let (first, _) = written(host.run(paperz::upload_paper(paper("a", "YQ=="), uploader.clone())));
    let (second, _) = written(host.run(paperz::upload_paper(paper("b", "Yg=="), uploader)));
    let namespace = "widget.paperz.paperz".to_string();
    let first_path = compose_entry_hash_path(&namespace, first.clone());
    let second_path = compose_entry_hash_path(&namespace, second);
    assert_ne!(first_path, second_path);
    let started = zome::step_sm_remote(namespace, first, "3".to_string());
    assert!(matches!(host.run(started), Ok(Response::Unit)));
    match host.run(zome::get_sm_generic(first_path, SmTag::Data)) {
        Ok(Response::Entry(Some((_, kept)))) => {
            assert_eq!(kept.output_flat_value, FlatValue::VInt(3))
        }
        other => panic!("expected the first paper's score, got {:?}", other),
    }
    match host.run(zome::get_sm_generic(second_path, SmTag::Data)) {
        Ok(Response::Entry(Some((_, kept)))) => {
            assert_eq!(kept.output_flat_value, FlatValue::VInt(0))
        }
        other => panic!("expected the second paper's score, got {:?}", other),
    }
}

#[test]
fn upload_paper_without_initial_expression_fails_before_the_step() {
    let uploader = agent(9);
    let mut host = MemoryHost::new();
    for namespace in ["widget.paperz.agent"] {
        assert!(flag(host.run(zome::set_sm_init(namespace.to_string(), "0".to_string()))));
        assert!(flag(host.run(zome::set_sm_comp(namespace.to_string(), "+".to_string()))));
    }
    let started =
        paperz::init_agent_sm_data("widget.paperz.agent".to_string(), agent_address(&uploader));
    assert!(matches!(host.run(started), Ok(Response::Unit)));
    match host.run(paperz::upload_paper(paper("p.pdf", "cGRm"), uploader.clone())) {
        Err(ZomeError::Host(message)) => assert_eq!(message, "refused"),
        other => panic!("expected the cell's refusal, got {:?}", other),
    }
    // The agent's score was not stepped, and the paper is listed all the same.
    let agent_path = compose_paths(&"widget.paperz.agent".to_string(), &agent_address(&uploader));
    match host.run(zome::get_sm_generic(agent_path, SmTag::Data)) {
        Ok(Response::Entry(Some((_, kept)))) => {
            assert_eq!(kept.output_flat_value, FlatValue::VInt(0));
        }
        other => panic!("expected the agent's score, got {:?}", other),
    }
    match host.run(paperz::get_all_paperz()) {
        Ok(Response::Paperz(paperz)) => assert_eq!(paperz.len(), 1),
        other => panic!("expected the list of papers, got {:?}", other),
    }
}

#[test]
fn an_agent_initialized_under_another_text_is_not_found() {
    let asking = agent(0xff);
    let mut host = MemoryHost::new();
    for namespace in ["widget.memez.memez", "widget.paperz.agent"] {
        assert!(flag(host.run(zome::set_sm_init(namespace.to_string(), "0".to_string()))));
        assert!(flag(host.run(zome::set_sm_comp(namespace.to_string(), "+".to_string()))));
    }
    // The key's first byte is 0xff, which the standard alphabet writes with
    // a slash and the URL-safe one with an underscore.
    let url_safe = agent_address(&asking);
    let standard = url_safe.replace('_', "/").replace('-', "+");
    assert_ne!(url_safe, standard);
    let started = paperz::init_agent_sm_data("widget.paperz.agent".to_string(), standard);
    assert!(matches!(host.run(started), Ok(Response::Unit)));
    let (_, _) = written(host.run(memez::upload_meme(meme("a.png", "QQ=="))));
    match host.run(memez::get_all_memez("+".to_string(), asking)) {
        Err(ZomeError::Guest(message)) => assert_eq!(message, "get_all_memez: no score is kept"),
        other => panic!("expected the listing to fail, got {:?}", other),
    }
}

#[test]
fn two_memes_have_two_paths_and_two_scores() {
    let asking = agent(9);
    let mut host = host_with_scores(&asking);
    let (first, _) = written(host.run(memez::upload_meme(meme("a.png", "QQ=="))));
    let (second, _) = written(host.run(memez::upload_meme(meme("b.png", "Qg=="))));
    let namespace = "widget.memez.memez".to_string();
    assert_ne!(
        compose_entry_hash_path(&namespace, first.clone()),
        compose_entry_hash_path(&namespace, second.clone())
    );
    assert!(matches!(host.run(memez::clap_for_meme(first.clone())), Ok(Response::Unit)));
    assert!(matches!(host.run(memez::clap_for_meme(first.clone())), Ok(Response::Unit)));
    assert_eq!(clap_count(host.run(memez::meme_clap_count(first))), Some(2));
    assert_eq!(clap_count(host.run(memez::meme_clap_count(second))), Some(0));
}

#[test]
fn uploading_the_same_meme_twice_keeps_its_score() {
    let asking = agent(9);
    let mut host = host_with_scores(&asking);
    let (first, _) = written(host.run(memez::upload_meme(meme("a.png", "QQ=="))));
    assert!(matches!(host.run(memez::clap_for_meme(first.clone())), Ok(Response::Unit)));
    let (again, _) = written(host.run(memez::upload_meme(meme("a.png", "QQ=="))));
    assert!(again.same_as(&first));
    assert_eq!(clap_count(host.run(memez::meme_clap_count(first))), Some(1));
}

#[test]
fn set_then_get_gives_the_expression_back() {
    let mut host = MemoryHost::new();
    assert!(flag(host.run(zome::set_sm_init("some.path".to_string(), "41".to_string()))));
    match host.run(zome::get_sm_init("some.path".to_string())) {
        Ok(Response::Entry(Some((_, kept)))) => {
            assert_eq!(kept.expr, "41");
            assert_eq!(kept.output_flat_value, FlatValue::VInt(41));
        }
        other => panic!("expected the initial expression, got {:?}", other),
    }
    assert!(flag(host.run(zome::set_sm_comp("some.path".to_string(), "+".to_string()))));
    match host.run(zome::get_sm_comp("some.path".to_string())) {
        Ok(Response::Entry(Some((_, kept)))) => assert_eq!(kept.expr, "+"),
        other => panic!("expected the transition expression, got {:?}", other),
    }
    // The latest expression wins, and the other tag keeps its own.
    assert!(flag(host.run(zome::set_sm_init("some.path".to_string(), "7".to_string()))));
    match host.run(zome::get_sm_init("some.path".to_string())) {
        Ok(Response::Entry(Some((_, kept)))) => assert_eq!(kept.expr, "7"),
        other => panic!("expected the initial expression, got {:?}", other),
    }
    match host.run(zome::get_sm_comp("some.path".to_string())) {
        Ok(Response::Entry(Some((_, kept)))) => assert_eq!(kept.expr, "+"),
        other => panic!("expected the transition expression, got {:?}", other),
    }
}

#[test]
fn get_before_set_gives_nothing() {
    let mut host = MemoryHost::new();
    assert!(matches!(host.run(zome::get_sm_init("p".to_string())), Ok(Response::Entry(None))));
    assert!(matches!(host.run(zome::get_sm_comp("p".to_string())), Ok(Response::Entry(None))));
}

#[test]
fn step_then_query_gives_the_transitions_value() {
    let asking = agent(9);
    let mut host = host_with_scores(&asking);
    let (target, _) = written(host.run(memez::upload_meme(meme("a.png", "QQ=="))));
    let started =
        zome::step_sm_remote("widget.memez.memez".to_string(), target.clone(), "5".to_string());
    assert!(matches!(host.run(started), Ok(Response::Unit)));
    match host.run(memez::get_sm_data(target.clone())) {
        Ok(Response::Record(Some((_, _, kept)))) => {
            assert_eq!(kept.output_flat_value, FlatValue::VInt(5));
        }
        other => panic!("expected the meme's score, got {:?}", other),
    }
    let started =
        zome::step_sm_remote("widget.memez.memez".to_string(), target.clone(), "-2".to_string());
    assert!(matches!(host.run(started), Ok(Response::Unit)));
    assert_eq!(clap_count(host.run(memez::meme_clap_count(target))), Some(3));
}

#[test]
fn step_by_path_reaches_the_same_value_as_step_by_entry() {
    let asking = agent(9);
    let mut host = host_with_scores(&asking);
    let (target, _) = written(host.run(memez::upload_meme(meme("a.png", "QQ=="))));
    let started = zome::step_sm_path_remote(
        "widget.memez.memez".to_string(),
        entry_address(&target),
        "4".to_string(),
    );
    assert!(matches!(host.run(started), Ok(Response::Unit)));
    assert_eq!(clap_count(host.run(memez::meme_clap_count(target))), Some(4));
}

#[test]
fn upload_without_initial_expression_fails_and_is_not_undone() {
    let asking = agent(9);
    let mut host = MemoryHost::new();
    match host.run(memez::upload_meme(meme("a.png", "QQ=="))) {
        Err(ZomeError::Host(message)) => assert_eq!(message, "refused"),
        other => panic!("expected the cell's refusal, got {:?}", other),
    }
    // The meme is written and linked all the same, with no score kept: the
    // listing finds it and fails on it.
    match host.run(memez::get_all_memez("+".to_string(), asking)) {
        Err(ZomeError::Guest(message)) => assert_eq!(message, "get_all_memez: no score is kept"),
        other => panic!("expected the listing to fail, got {:?}", other),
    }
}

#[test]
fn listing_three_memes_fails_where_the_second_is_gone() {
    let asking = agent(9);
    let mut host = host_with_scores(&asking);
    let (_, _) = written(host.run(memez::upload_meme(meme("a.png", "QQ=="))));
    let (second, _) = written(host.run(memez::upload_meme(meme("b.png", "Qg=="))));
    let (_, _) = written(host.run(memez::upload_meme(meme("c.png", "Qw=="))));
    host.entries.remove(second.get_raw_39());
    match host.run(memez::get_all_memez("+".to_string(), asking)) {
        Err(ZomeError::Guest(message)) => assert_eq!(message, "get_all_memez: refused"),
        other => panic!("expected the listing to fail, got {:?}", other),
    }
}

#[test]
fn listing_three_papers_fails_where_the_second_is_gone() {
    let uploader = agent(9);
    let mut host = host_with_scores(&uploader);
    let (_, _) = written(host.run(paperz::upload_paper(paper("a", "YQ=="), uploader.clone())));
    let (second, _) =
        written(host.run(paperz::upload_paper(paper("b", "Yg=="), uploader.clone())));
    let (_, _) = written(host.run(paperz::upload_paper(paper("c", "Yw=="), uploader.clone())));
    host.entries.remove(second.get_raw_39());
    match host.run(paperz::get_all_paperz()) {
        Err(ZomeError::Guest(message)) => assert_eq!(message, "get_all_paperz: refused"),
        other => panic!("expected the listing to fail, got {:?}", other),
    }
}

#[test]
fn annotations_are_found_from_their_paper() {
    let uploader = agent(9);
    let mut host = host_with_scores(&uploader);
    let (paper_address, _) =
        written(host.run(paperz::upload_paper(paper("p.pdf", "cGRm"), uploader)));
    let annotation = Annotation {
        paper_ref: paper_address.clone(),
        page_num: 3,
        paragraph_num: 1,
        what_it_says: "teh".to_string(),
        what_it_should_say: "the".to_string(),
    };
    let (address, _) = written(host.run(paperz::create_annotation(annotation)));
    match host.run(paperz::get_annotations_for_paper(paper_address)) {
        Ok(Response::Annotations(annotations)) => {
            assert_eq!(annotations.len(), 1);
            assert!(annotations[0].0.same_as(&address));
            assert_eq!(annotations[0].1.page_num, 3);
            assert_eq!(annotations[0].1.what_it_says, "teh");
        }
        other => panic!("expected the annotations, got {:?}", other),
    }
    match host.run(paperz::get_sm_data(address)) {
        Ok(Response::Entry(Some((_, kept)))) => {
            assert_eq!(kept.output_flat_value, FlatValue::VInt(0));
        }
        other => panic!("expected the annotation's score, got {:?}", other),
    }
}
