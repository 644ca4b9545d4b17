use pyperscan::adapter::{label_of, to_tag_mapping, ChunkFeed, MatchLabel, Step, TaggedPattern};
use pyperscan::context::Scan;
use pyperscan::error::{Error, HyperscanErrorCode};
use pyperscan::flags::{Flag, FlagBit};
use pyperscan::pattern::{CompileRequest, Pattern};

fn tagged(expression: &[u8], tag: Option<&str>) -> TaggedPattern<String> {
    TaggedPattern { expression: expression.to_vec(), tag: tag.map(String::from), flags: Flag::empty() }
}

/// Feeds `data` as the steps say, answering each chunk with the next of `answers`.
fn feed(
    length: usize,
    chunk_size: Option<usize>,
    answers: Vec<Result<Scan, Error<u8>>>,
) -> (Vec<(usize, usize)>, Result<Scan, Error<u8>>) {
    let mut answers = answers.into_iter();
    let mut chunks = Vec::new();
    let (mut state, mut step) = ChunkFeed::new(length, chunk_size);
    loop {
        match step {
            Step::Feed { from, to } => {
                assert!(state.is_in_flight());
                chunks.push((from, to));
                step = state.next(answers.next().unwrap());
            }
            Step::Done(result) => {
                assert!(!state.is_in_flight());
                return (chunks, result);
            }
        }
    }
}

#[test]
fn patterns_are_numbered_by_position() {
    let caseless = Flag::from_bit(FlagBit::Caseless);
    let patterns = vec![
        tagged(b"ab", Some("first")),
        TaggedPattern { expression: b"cd".to_vec(), tag: None, flags: caseless },
        tagged(b"ef", Some("third")),
    ];
    let (numbered, tags) = to_tag_mapping::<String, ()>(patterns).unwrap();
    assert_eq!(
        numbered,
        vec![
            Pattern::new::<()>(b"ab".to_vec(), Flag::empty(), Some(0)).unwrap(),
            Pattern::new::<()>(b"cd".to_vec(), caseless, Some(1)).unwrap(),
            Pattern::new::<()>(b"ef".to_vec(), Flag::empty(), Some(2)).unwrap(),
        ]
    );
    assert_eq!(tags, vec![Some(String::from("first")), None, Some(String::from("third"))]);
}

#[test]
fn numbered_patterns_reach_the_compiler_under_their_numbers() {
    let (numbered, _) =
        to_tag_mapping::<String, ()>(vec![tagged(b"x", None), tagged(b"y", None), tagged(b"z", None)])
            .unwrap();
    let request = CompileRequest::block::<()>(numbered).unwrap();
    assert_eq!(request.ids(), &vec![0, 1, 2]);
}

#[test]
fn no_patterns_give_no_tags() {
    let (numbered, tags) = to_tag_mapping::<String, ()>(Vec::new()).unwrap();
    assert!(numbered.is_empty());
    assert!(tags.is_empty());
}

#[test]
fn tagged_pattern_with_a_zero_byte_is_malformed_input() {
    let patterns = vec![tagged(b"fine", Some("a")), tagged(b"ab\0cd\0", None), tagged(b"\0", None)];
    assert_eq!(to_tag_mapping::<String, ()>(patterns), Err(Error::MalformedInput(2)));
    let patterns = vec![tagged(b"\0", Some("a")), tagged(b"ab\0", None)];
    assert_eq!(to_tag_mapping::<String, ()>(patterns), Err(Error::MalformedInput(0)));
}

#[test]
fn match_of_a_tagged_pattern_is_shown_by_its_tag() {
    let tags = vec![Some(String::from("first")), None];
    match label_of(&tags, 0) {
        MatchLabel::Tag(tag) => assert_eq!(tag, "first"),
        MatchLabel::Id(_) => panic!("the pattern has a tag"),
    }
}

#[test]
fn match_of_an_untagged_pattern_is_shown_by_its_number() {
    let tags = vec![Some(String::from("first")), None];
    match label_of(&tags, 1) {
        MatchLabel::Tag(_) => panic!("the pattern has no tag"),
        MatchLabel::Id(id) => assert_eq!(id, 1),
    }
}

#[test]
fn chunks_follow_each_other_to_the_end() {
    let (chunks, result) = feed(10, Some(4), vec![Ok(Scan::Continue); 3]);
    assert_eq!(chunks, vec![(0, 4), (4, 8), (8, 10)]);
    assert_eq!(result, Ok(Scan::Continue));
}

#[test]
fn chunks_of_exact_size_leave_no_empty_last_chunk() {
    let (chunks, result) = feed(8, Some(4), vec![Ok(Scan::Continue); 2]);
    assert_eq!(chunks, vec![(0, 4), (4, 8)]);
    assert_eq!(result, Ok(Scan::Continue));
}

#[test]
fn chunk_larger_than_the_data_takes_it_all() {
    let (chunks, result) = feed(3, Some(100), vec![Ok(Scan::Continue)]);
    assert_eq!(chunks, vec![(0, 3)]);
    assert_eq!(result, Ok(Scan::Continue));
    let (chunks, _) = feed(3, Some(usize::MAX), vec![Ok(Scan::Continue)]);
    assert_eq!(chunks, vec![(0, 3)]);
}

#[test]
fn chunks_of_one_byte() {
    let (chunks, _) = feed(3, Some(1), vec![Ok(Scan::Continue); 3]);
    assert_eq!(chunks, vec![(0, 1), (1, 2), (2, 3)]);
}

#[test]
fn without_chunk_size_the_data_is_fed_at_once() {
    let (chunks, result) = feed(10, None, vec![Ok(Scan::Terminate)]);
    assert_eq!(chunks, vec![(0, 10)]);
    assert_eq!(result, Ok(Scan::Terminate));
}

#[test]
fn without_chunk_size_empty_data_is_fed_too() {
    let (chunks, result) = feed(0, None, vec![Ok(Scan::Continue)]);
    assert_eq!(chunks, vec![(0, 0)]);
    assert_eq!(result, Ok(Scan::Continue));
}

#[test]
fn chunked_empty_data_feeds_nothing_and_continues() {
    let (chunks, result) = feed(0, Some(4), Vec::new());
    assert!(chunks.is_empty());
    assert_eq!(result, Ok(Scan::Continue));
}

#[test]
fn terminate_leaves_the_rest_unfed() {
    let (chunks, result) = feed(10, Some(4), vec![Ok(Scan::Continue), Ok(Scan::Terminate)]);
    assert_eq!(chunks, vec![(0, 4), (4, 8)]);
    assert_eq!(result, Ok(Scan::Terminate));
}

#[test]
fn error_ends_the_feeding_and_is_the_result() {
    let failure = Error::EngineStatus(HyperscanErrorCode::Nomem, -2);
    let (chunks, result) = feed(10, Some(4), vec![Err(failure.clone())]);
    assert_eq!(chunks, vec![(0, 4)]);
    assert_eq!(result, Err(failure));
    let (chunks, result) = feed(10, Some(4), vec![Ok(Scan::Continue), Err(Error::HandlerFailed(9))]);
    assert_eq!(chunks, vec![(0, 4), (4, 8)]);
    assert_eq!(result, Err(Error::HandlerFailed(9)));
}

#[test]
fn chunks_put_together_are_the_data() {
    let data = b"the quick brown fox";
    for size in 1..=data.len() + 1 {
        let count = (data.len() + size - 1) / size;
        let (chunks, _) = feed(data.len(), Some(size), vec![Ok(Scan::Continue); count]);
        let mut joined = Vec::new();
        for (from, to) in chunks {
            assert!(to - from <= size);
            joined.extend_from_slice(&data[from..to]);
        }
        assert_eq!(&joined[..], &data[..]);
    }
}

#[test]
fn first_step_of_chunked_data_is_the_first_chunk() {
    let (_, step) = ChunkFeed::new::<u8>(10, Some(4));
    assert_eq!(step, Step::Feed { from: 0, to: 4 });
    let (_, step) = ChunkFeed::new::<u8>(0, Some(4));
    assert_eq!(step, Step::Done(Ok(Scan::Continue)));
}

#[test]
fn labels_compare_by_what_they_hold() {
    let tags = vec![Some(7u8), None];
    assert_eq!(label_of(&tags, 0), MatchLabel::Tag(&7));
    assert_eq!(label_of(&tags, 1), MatchLabel::Id(1));
}
