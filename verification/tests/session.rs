use voxii::config::TranscriptionProvider;
use voxii::merge::{merge_chunks, sort_chunks, Chunk};
use voxii::session::{SessionError, SessionRegistry};

fn chunk(index: u32, text: &str) -> Chunk {
    Chunk { index, text: text.to_string() }
}

fn end_after(submissions: &[(u32, &str)]) -> Result<String, SessionError> {
    let mut registry = SessionRegistry::new();
    let id = registry.create(TranscriptionProvider::Local);
    for (index, text) in submissions {
        registry.append_chunk(&id, *index, text.to_string()).unwrap();
    }
    registry.finalize(&id)
}

#[test]
fn merge_is_the_same_for_every_submission_order() {
    let world = (2, "world");
    let hello = (0, "hello");
    let there = (1, "there");
    let orders = [
        [world, hello, there],
        [world, there, hello],
        [hello, world, there],
        [hello, there, world],
        [there, world, hello],
        [there, hello, world],
    ];
    for order in orders.iter() {
        assert_eq!(end_after(order), Ok("hello there world".to_string()));
    }
}

#[test]
fn session_without_chunks_ends_with_empty_transcript() {
    assert_eq!(end_after(&[]), Ok(String::new()));
}

#[test]
fn single_chunk_is_returned_without_separator() {
    assert_eq!(end_after(&[(7, "only")]), Ok("only".to_string()));
}

#[test]
fn ending_twice_fails_the_second_time() {
    let mut registry = SessionRegistry::new();
    let id = registry.create(TranscriptionProvider::Local);
    registry.append_chunk(&id, 0, "a".to_string()).unwrap();
    assert_eq!(registry.finalize(&id), Ok("a".to_string()));
    assert_eq!(registry.finalize(&id), Err(SessionError::SessionNotFound));
    assert!(!registry.contains(&id));
}

#[test]
fn unknown_session_is_refused_by_every_operation() {
    let mut registry = SessionRegistry::new();
    let known = registry.create(TranscriptionProvider::Local);
    assert_eq!(
        registry.append_chunk("no-such-session", 0, "text".to_string()),
        Err(SessionError::SessionNotFound)
    );
    assert_eq!(registry.get_provider("no-such-session"), Err(SessionError::SessionNotFound));
    assert_eq!(registry.finalize("no-such-session"), Err(SessionError::SessionNotFound));
    assert_eq!(registry.len(), 1);
    assert_eq!(registry.finalize(&known), Ok(String::new()));
}

#[test]
fn ended_session_takes_no_more_chunks() {
    let mut registry = SessionRegistry::new();
    let id = registry.create(TranscriptionProvider::OpenAICompatible);
    registry.finalize(&id).unwrap();
    assert_eq!(
        registry.append_chunk(&id, 1, "late".to_string()),
        Err(SessionError::SessionNotFound)
    );
    assert_eq!(registry.get_provider(&id), Err(SessionError::SessionNotFound));
}

#[test]
fn chunks_of_one_index_keep_their_submission_order() {
    assert_eq!(
        end_after(&[(1, "a"), (0, "x"), (1, "b"), (0, "y"), (1, "c")]),
        Ok("x y a b c".to_string())
    );
}

#[test]
fn indices_need_not_be_contiguous() {
    assert_eq!(
        end_after(&[(4_000_000_000, "last"), (10, "mid"), (0, "first")]),
        Ok("first mid last".to_string())
    );
}

#[test]
fn empty_texts_still_get_their_separator() {
    assert_eq!(end_after(&[(1, ""), (0, "a"), (2, "b")]), Ok("a  b".to_string()));
}

#[test]
fn provider_is_pinned_at_creation() {
    let mut registry = SessionRegistry::new();
    let local = registry.create(TranscriptionProvider::Local);
    let remote = registry.create(TranscriptionProvider::OpenAICompatible);
    assert_eq!(registry.get_provider(&local), Ok(TranscriptionProvider::Local));
    assert_eq!(registry.get_provider(&remote), Ok(TranscriptionProvider::OpenAICompatible));
    registry.append_chunk(&remote, 0, "x".to_string()).unwrap();
    assert_eq!(registry.get_provider(&remote), Ok(TranscriptionProvider::OpenAICompatible));
}

#[test]
fn created_identifiers_are_hyphenated_and_fresh() {
    let mut registry = SessionRegistry::new();
    let first = registry.create(TranscriptionProvider::Local);
    let second = registry.create(TranscriptionProvider::Local);
    assert_ne!(first, second);
    assert_eq!(registry.len(), 2);
    for id in [&first, &second] {
        assert_eq!(id.len(), 36);
        for (i, c) in id.chars().enumerate() {
            if i == 8 || i == 13 || i == 18 || i == 23 {
                assert_eq!(c, '-');
            } else {
                assert!(c.is_ascii_digit() || ('a'..='f').contains(&c));
            }
        }
    }
}

#[test]
fn sessions_do_not_mix_their_chunks() {
    let mut registry = SessionRegistry::new();
    let a = registry.create(TranscriptionProvider::Local);
    let b = registry.create(TranscriptionProvider::Local);
    registry.append_chunk(&a, 1, "a1".to_string()).unwrap();
    registry.append_chunk(&b, 0, "b0".to_string()).unwrap();
    registry.append_chunk(&a, 0, "a0".to_string()).unwrap();
    assert_eq!(registry.finalize(&b), Ok("b0".to_string()));
    assert_eq!(registry.finalize(&a), Ok("a0 a1".to_string()));
    assert_eq!(registry.len(), 0);
}

#[test]
fn inserting_under_a_used_id_starts_the_session_anew() {
    let mut registry = SessionRegistry::new();
    registry.insert_session("fixed".to_string(), TranscriptionProvider::Local);
    registry.append_chunk("fixed", 0, "old".to_string()).unwrap();
    registry.insert_session("fixed".to_string(), TranscriptionProvider::OpenAICompatible);
    assert_eq!(registry.len(), 1);
    assert_eq!(registry.get_provider("fixed"), Ok(TranscriptionProvider::OpenAICompatible));
    assert_eq!(registry.finalize("fixed"), Ok(String::new()));
}

#[test]
fn session_ids_are_compared_exactly() {
    let mut registry = SessionRegistry::new();
    registry.insert_session("Abc".to_string(), TranscriptionProvider::Local);
    assert!(registry.contains("Abc"));
    assert!(!registry.contains("abc"));
    assert!(!registry.contains("Abc "));
    assert!(!registry.contains(""));
}

#[test]
fn sort_chunks_orders_by_index_and_is_stable() {
    let sorted = sort_chunks(vec![chunk(3, "d"), chunk(1, "b"), chunk(3, "e"), chunk(0, "a")]);
    assert_eq!(sorted, vec![chunk(0, "a"), chunk(1, "b"), chunk(3, "d"), chunk(3, "e")]);
}

#[test]
fn merge_chunks_joins_with_single_spaces() {
    assert_eq!(merge_chunks(vec![chunk(1, "two"), chunk(0, "one")]), "one two");
    assert_eq!(merge_chunks(Vec::new()), "");
}

#[test]
fn chunks_are_kept_in_submission_order_until_the_session_ends() {
    let mut registry = SessionRegistry::new();
    registry.insert_session("s".to_string(), TranscriptionProvider::Local);
    registry.append_chunk("s", 2, "c".to_string()).unwrap();
    registry.append_chunk("s", 0, "a".to_string()).unwrap();
    registry.append_chunk("s", 2, "d".to_string()).unwrap();
    let session = registry.get("s").unwrap();
    assert_eq!(session.provider, TranscriptionProvider::Local);
    assert_eq!(session.chunks, vec![chunk(2, "c"), chunk(0, "a"), chunk(2, "d")]);
    assert_eq!(registry.get("t"), None);
    assert_eq!(registry.finalize("s"), Ok("a c d".to_string()));
    assert_eq!(registry.get("s"), None);
}

#[test]
fn unused_identifier_is_the_candidate_unless_it_is_taken() {
    let mut registry = SessionRegistry::new();
    assert_eq!(registry.unused_id("abc".to_string()), "abc");
    registry.insert_session("abc".to_string(), TranscriptionProvider::Local);
    registry.insert_session("abc0".to_string(), TranscriptionProvider::Local);
    registry.insert_session("a-much-longer-id".to_string(), TranscriptionProvider::Local);
    assert_eq!(registry.unused_id("free".to_string()), "free");
    let lengthened = registry.unused_id("abc".to_string());
    assert_eq!(lengthened, "abc00000000000000");
    assert!(!registry.contains(&lengthened));
    assert_eq!(registry.unused_id("a-much-longer-id".to_string()), "a-much-longer-id0");
    assert_eq!(registry.len(), 3);
}
