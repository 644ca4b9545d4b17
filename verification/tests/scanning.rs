use pyperscan::context::{
    to_scan_result, Context, MatchEventHandler, Scan, CALLBACK_CONTINUE, CALLBACK_FAILED,
    CALLBACK_TERMINATE,
};
use pyperscan::database::{BlockDatabase, StreamDatabase, VectoredDatabase};
use pyperscan::error::{
    as_result, CompileError, Error, HyperscanErrorCode, HS_NOMEM, HS_SCAN_TERMINATED, HS_SUCCESS,
};
use pyperscan::scanner::{BlockScanner, StreamScanner, VectoredScanner};
use std::sync::Arc;

type Match = (u32, u64, u64);

/// Notes every match and goes on.
struct Recorder;

impl MatchEventHandler<Vec<Match>> for Recorder {
    type Error = String;

    fn handle(&self, seen: &mut Vec<Match>, id: u32, from: u64, to: u64) -> Result<Scan, String> {
        seen.push((id, from, to));
        Ok(Scan::Continue)
    }
}

/// Notes every match and asks to stop.
struct Stopper;

impl MatchEventHandler<Vec<Match>> for Stopper {
    type Error = String;

    fn handle(&self, seen: &mut Vec<Match>, id: u32, from: u64, to: u64) -> Result<Scan, String> {
        seen.push((id, from, to));
        Ok(Scan::Terminate)
    }
}

/// Notes every match and fails with its own message.
struct Failer(String);

impl MatchEventHandler<Vec<Match>> for Failer {
    type Error = String;

    fn handle(&self, seen: &mut Vec<Match>, id: u32, from: u64, to: u64) -> Result<Scan, String> {
        seen.push((id, from, to));
        Err(self.0.clone())
    }
}

/// Notes every match, asks to stop at the first and goes on at the others.
struct StopsFirst;

impl MatchEventHandler<Vec<Match>> for StopsFirst {
    type Error = String;

    fn handle(&self, seen: &mut Vec<Match>, id: u32, from: u64, to: u64) -> Result<Scan, String> {
        seen.push((id, from, to));
        if seen.len() == 1 {
            Ok(Scan::Terminate)
        } else {
            Ok(Scan::Continue)
        }
    }
}

/// Fails on the matches of one pattern and goes on at the others.
struct FailsOn(u32);

impl MatchEventHandler<Vec<Match>> for FailsOn {
    type Error = u32;

    fn handle(&self, seen: &mut Vec<Match>, id: u32, from: u64, to: u64) -> Result<Scan, u32> {
        seen.push((id, from, to));
        if id == self.0 {
            Err(id)
        } else {
            Ok(Scan::Continue)
        }
    }
}

/// A stand-in for a compiled database: literal byte strings with their numbers.
struct Literals(Vec<(u32, Vec<u8>)>);

/// A stand-in for the engine's search: every place in `data`, from `fresh` on, where a literal
/// ends, in the order of the ends. Offsets count from `base`. As the engine does for patterns
/// that do not ask for the start of a match, the start is reported as 0.
fn ends(db: &Literals, data: &[u8], fresh: usize, base: u64) -> Vec<Match> {
    let mut found = Vec::new();
    for end in (fresh + 1)..=data.len() {
        for (id, literal) in &db.0 {
            if !literal.is_empty() && end >= literal.len() && &data[end - literal.len()..end] == &literal[..] {
                found.push((*id, 0, base + end as u64));
            }
        }
    }
    found
}

/// A stand-in for the engine's callback loop: shows each match to the callback and stops at the
/// first answer that is not zero. Returns the status and the number of calls made.
fn deliver<U, H: MatchEventHandler<U>>(context: &mut Context<U, H>, matches: &[Match]) -> (i32, usize) {
    let mut calls = 0;
    for (id, from, to) in matches {
        calls += 1;
        if context.on_match(*id, *from, *to) != 0 {
            return (HS_SCAN_TERMINATED, calls);
        }
    }
    (HS_SUCCESS, calls)
}

fn scan_block<H: MatchEventHandler<Vec<Match>>>(
    scanner: &mut BlockScanner<Literals, (), Vec<Match>, H>,
    data: &[u8],
) -> (Result<Scan, Error<H::Error>>, usize) {
    let length = scanner.begin_scan(data);
    let matches = ends(&scanner.database, &data[..length as usize], 0, 0);
    let (status, calls) = deliver(&mut scanner.context, &matches);
    (scanner.finish(status), calls)
}

fn scan_vectored<H: MatchEventHandler<Vec<Match>>>(
    scanner: &mut VectoredScanner<Literals, (), Vec<Match>, H>,
    data: Vec<&[u8]>,
) -> Result<Scan, Error<H::Error>> {
    let (lengths, count) = scanner.begin_scan(&data);
    let mut joined = Vec::new();
    for i in 0..count as usize {
        joined.extend_from_slice(&data[i][..lengths[i] as usize]);
    }
    let matches = ends(&scanner.database, &joined, 0, 0);
    let (status, _) = deliver(&mut scanner.context, &matches);
    scanner.finish(status)
}

/// A stand-in for the engine's stream state: everything fed so far, and whether a callback
/// stopped the engine. A stopped stream answers every scan as stopped until it is reset.
struct Fed {
    bytes: Vec<u8>,
    stopped: bool,
}

fn scan_stream<H: MatchEventHandler<Vec<Match>>>(
    scanner: &mut StreamScanner<Literals, (), Fed, Vec<Match>, H>,
    data: &[u8],
) -> Result<Scan, Error<H::Error>> {
    let (reset_first, length) = scanner.begin_scan(data);
    if reset_first {
        scanner.stream.bytes.clear();
        scanner.stream.stopped = false;
    }
    if scanner.stream.stopped {
        return scanner.finish(HS_SCAN_TERMINATED);
    }
    let fresh = scanner.stream.bytes.len();
    scanner.stream.bytes.extend_from_slice(&data[..length as usize]);
    let matches = ends(&scanner.database, &scanner.stream.bytes, fresh, 0);
    let (status, _) = deliver(&mut scanner.context, &matches);
    scanner.stream.stopped = status == HS_SCAN_TERMINATED;
    scanner.finish(status)
}

fn reset_stream<H: MatchEventHandler<Vec<Match>>>(
    scanner: &mut StreamScanner<Literals, (), Fed, Vec<Match>, H>,
) -> Result<Scan, Error<H::Error>> {
    scanner.begin_reset();
    scanner.stream.bytes.clear();
    scanner.stream.stopped = false;
    scanner.finish(HS_SUCCESS)
}

fn literals(list: &[(u32, &[u8])]) -> Literals {
    Literals(list.iter().map(|(id, bytes)| (*id, bytes.to_vec())).collect())
}

fn block_db(list: &[(u32, &[u8])]) -> BlockDatabase<Literals> {
    BlockDatabase::new::<()>(Ok(literals(list))).unwrap()
}

fn stream_scanner<H: MatchEventHandler<Vec<Match>>>(
    list: &[(u32, &[u8])],
    handler: H,
) -> StreamScanner<Literals, (), Fed, Vec<Match>, H> {
    let db = StreamDatabase::new::<()>(Ok(literals(list))).unwrap();
    let stream = Fed { bytes: Vec::new(), stopped: false };
    db.create_scanner((), stream, Context::new(Vec::new(), handler))
}

#[test]
fn fresh_context_has_the_callers_state() {
    let context = Context::new(vec![(9, 9, 9)], Recorder);
    assert_eq!(context.user_data(), &vec![(9, 9, 9)]);
    assert_eq!(context.into_user_data(), vec![(9, 9, 9)]);
}

#[test]
fn answers_become_the_engines_signals() {
    let mut context = Context::new(Vec::<Match>::new(), Recorder);
    assert_eq!(context.record(Ok(Scan::Continue)), 0);
    assert_eq!(context.record(Ok(Scan::Terminate)), 1);
    assert_eq!(context.record(Err(String::from("no"))), -1);
    assert_eq!(CALLBACK_CONTINUE, 0);
    assert_eq!(CALLBACK_TERMINATE, 1);
    assert_eq!(CALLBACK_FAILED, -1);
}

#[test]
fn callback_shows_the_match_to_the_handler() {
    let mut context = Context::new(Vec::new(), Recorder);
    assert_eq!(context.on_match(4, 10, 12), 0);
    assert_eq!(context.on_match(5, 0, 20), 0);
    assert_eq!(context.user_data(), &vec![(4, 10, 12), (5, 0, 20)]);
    assert_eq!(context.finish(HS_SUCCESS), Ok(Scan::Continue));
}

#[test]
fn callback_answers_one_for_terminate() {
    let mut context = Context::new(Vec::new(), Stopper);
    assert_eq!(context.on_match(1, 2, 3), 1);
    assert_eq!(context.finish(HS_SCAN_TERMINATED), Ok(Scan::Terminate));
}

#[test]
fn callback_answers_minus_one_for_a_failure_and_keeps_it() {
    let mut context = Context::new(Vec::new(), Failer(String::from("boom")));
    assert_eq!(context.on_match(1, 2, 3), -1);
    assert_eq!(context.finish(HS_SCAN_TERMINATED), Err(Error::HandlerFailed(String::from("boom"))));
}

#[test]
fn kept_failure_is_reported_once() {
    let mut context = Context::new(Vec::new(), Failer(String::from("boom")));
    context.on_match(1, 2, 3);
    assert!(context.finish(HS_SCAN_TERMINATED).is_err());
    assert_eq!(context.finish(HS_SUCCESS), Ok(Scan::Continue));
}

#[test]
fn begin_forgets_a_kept_failure() {
    let mut context = Context::new(Vec::<Match>::new(), Recorder);
    context.record(Err(String::from("stale")));
    context.begin();
    assert_eq!(context.finish(HS_SUCCESS), Ok(Scan::Continue));
}

#[test]
fn failure_comes_before_any_status() {
    for status in [HS_SUCCESS, HS_SCAN_TERMINATED, HS_NOMEM, -13, 5] {
        let mut context = Context::new(Vec::<Match>::new(), Recorder);
        context.record(Err(String::from("mine")));
        assert_eq!(context.finish(status), Err(Error::HandlerFailed(String::from("mine"))));
    }
}

#[test]
fn later_answers_do_not_hide_a_failure() {
    let mut context = Context::new(Vec::<Match>::new(), Recorder);
    context.record(Err(String::from("first")));
    context.record(Ok(Scan::Continue));
    context.record(Ok(Scan::Terminate));
    assert_eq!(context.finish(HS_SCAN_TERMINATED), Err(Error::HandlerFailed(String::from("first"))));
}

#[test]
fn later_failure_replaces_an_earlier_one() {
    let mut context = Context::new(Vec::<Match>::new(), Recorder);
    context.record(Err(String::from("first")));
    context.record(Err(String::from("second")));
    assert_eq!(context.finish(HS_SCAN_TERMINATED), Err(Error::HandlerFailed(String::from("second"))));
}

#[test]
fn scan_result_without_failure_follows_the_status() {
    assert_eq!(to_scan_result::<()>(as_result(HS_SUCCESS), None), Ok(Scan::Continue));
    assert_eq!(to_scan_result::<()>(as_result(HS_SCAN_TERMINATED), None), Ok(Scan::Terminate));
    assert_eq!(
        to_scan_result::<()>(as_result(HS_NOMEM), None),
        Err(Error::EngineStatus(HyperscanErrorCode::Nomem, -2))
    );
    assert_eq!(
        to_scan_result::<()>(as_result(-10), None),
        Err(Error::EngineStatus(HyperscanErrorCode::ScratchInUse, -10))
    );
    assert_eq!(
        to_scan_result::<()>(as_result(3), None),
        Err(Error::EngineStatus(HyperscanErrorCode::UnknownError, 3))
    );
}

#[test]
fn scan_result_hands_other_errors_on() {
    let compile: Result<(), Error<()>> = Err(Error::CompileFailed(String::from("bad"), 1));
    assert_eq!(to_scan_result(compile, None), Err(Error::CompileFailed(String::from("bad"), 1)));
    let malformed: Result<(), Error<()>> = Err(Error::MalformedInput(3));
    assert_eq!(to_scan_result(malformed, None), Err(Error::MalformedInput(3)));
    let handler: Result<(), Error<u8>> = Err(Error::HandlerFailed(1));
    assert_eq!(to_scan_result(handler, None), Err(Error::HandlerFailed(1)));
}

#[test]
fn scan_result_reads_the_name_of_a_stopped_scan() {
    let named: Result<(), Error<()>> = Err(Error::EngineStatus(HyperscanErrorCode::ScanTerminated, 99));
    assert_eq!(to_scan_result(named, None), Ok(Scan::Terminate));
}

#[test]
fn scan_result_with_failure_is_the_failure() {
    assert_eq!(to_scan_result(as_result(HS_SUCCESS), Some(7u8)), Err(Error::HandlerFailed(7u8)));
    assert_eq!(to_scan_result(as_result(HS_NOMEM), Some(7u8)), Err(Error::HandlerFailed(7u8)));
}

#[test]
fn default_scan_is_continue() {
    assert_eq!(Scan::default(), Scan::Continue);
}

#[test]
fn database_takes_the_compiled_handle() {
    let db = BlockDatabase::new::<()>(Ok(17u32)).unwrap();
    assert_eq!(*db.db, 17);
    let db = VectoredDatabase::new::<()>(Ok(18u32)).unwrap();
    assert_eq!(*db.db, 18);
    let db = StreamDatabase::new::<()>(Ok(19u32)).unwrap();
    assert_eq!(*db.db, 19);
}

#[test]
fn database_turns_a_diagnostic_into_compile_failed() {
    let diagnostic = CompileError { message: String::from("Missing close parenthesis."), expression: 0 };
    let failed = BlockDatabase::<u32>::new::<()>(Err(diagnostic.clone()));
    assert!(matches!(failed, Err(Error::CompileFailed(ref text, 0)) if text == "Missing close parenthesis."));
    let failed = VectoredDatabase::<u32>::new::<()>(Err(diagnostic.clone()));
    assert!(matches!(failed, Err(Error::CompileFailed(ref text, 0)) if text == "Missing close parenthesis."));
    let failed = StreamDatabase::<u32>::new::<()>(Err(diagnostic));
    assert!(matches!(failed, Err(Error::CompileFailed(ref text, 0)) if text == "Missing close parenthesis."));
}

#[test]
fn empty_pattern_list_is_whatever_the_compiler_says() {
    let rejected = CompileError { message: String::from("Invalid parameter: elements is zero"), expression: -1 };
    let failed = BlockDatabase::<u32>::new::<()>(Err(rejected));
    assert!(matches!(failed, Err(Error::CompileFailed(_, -1))));
    let accepted = BlockDatabase::new::<()>(Ok(Literals(Vec::new()))).unwrap();
    let mut scanner = accepted.create_scanner((), Context::new(Vec::new(), Recorder));
    assert_eq!(scan_block(&mut scanner, b"anything").0, Ok(Scan::Continue));
    assert!(scanner.context.user_data().is_empty());
}

#[test]
fn scanner_shares_the_database() {
    let db = block_db(&[(0, b"ab")]);
    assert_eq!(Arc::strong_count(&db.db), 1);
    let first = db.create_scanner((), Context::new(Vec::new(), Recorder));
    let second = BlockScanner::new(&db, (), Context::new(Vec::new(), Recorder));
    assert_eq!(Arc::strong_count(&db.db), 3);
    assert!(Arc::ptr_eq(&db.db, &first.database));
    assert!(Arc::ptr_eq(&db.db, &second.database));
}

#[test]
fn scanner_outlives_the_database_it_was_made_from() {
    let db = block_db(&[(0, b"ab")]);
    let mut scanner = db.create_scanner((), Context::new(Vec::new(), Recorder));
    drop(db);
    assert_eq!(Arc::strong_count(&scanner.database), 1);
    assert_eq!(scan_block(&mut scanner, b"xxabxx").0, Ok(Scan::Continue));
    assert_eq!(scanner.context.user_data(), &vec![(0, 0, 4)]);
}

#[test]
fn vectored_scanner_shares_the_database() {
    let db = VectoredDatabase::new::<()>(Ok(literals(&[(0, b"ab")]))).unwrap();
    let scanner = VectoredScanner::new(&db, 5u8, Context::new(Vec::<Match>::new(), Recorder));
    assert!(Arc::ptr_eq(&db.db, &scanner.database));
    assert_eq!(scanner.scratch, 5);
}

#[test]
fn stream_scanner_takes_scratch_and_stream() {
    let db = StreamDatabase::new::<()>(Ok(0u8)).unwrap();
    let scanner = StreamScanner::new(&db, 1u8, 2u16, Context::new(vec![(1, 1, 1)], Recorder));
    assert_eq!(scanner.scratch, 1);
    assert_eq!(scanner.stream, 2);
    assert_eq!(scanner.context.user_data(), &vec![(1, 1, 1)]);
    assert!(!scanner.stopped);
}

#[test]
fn stream_scanner_shares_the_database() {
    let db = StreamDatabase::new::<()>(Ok(literals(&[(0, b"ab")]))).unwrap();
    assert_eq!(Arc::strong_count(&db.db), 1);
    let first = db.create_scanner((), 0u8, Context::new(Vec::<Match>::new(), Recorder));
    let second = StreamScanner::new(&db, (), 0u8, Context::new(Vec::<Match>::new(), Recorder));
    assert_eq!(Arc::strong_count(&db.db), 3);
    assert!(Arc::ptr_eq(&db.db, &first.database));
    assert!(Arc::ptr_eq(&db.db, &second.database));
}

#[test]
fn stream_scanner_outlives_the_database_it_was_made_from() {
    let db = StreamDatabase::new::<()>(Ok(literals(&[(0, b"ab")]))).unwrap();
    let stream = Fed { bytes: Vec::new(), stopped: false };
    let mut scanner = db.create_scanner((), stream, Context::new(Vec::new(), Recorder));
    drop(db);
    assert_eq!(Arc::strong_count(&scanner.database), 1);
    assert_eq!(scan_stream(&mut scanner, b"xxxabxxx"), Ok(Scan::Continue));
    let seen = scanner.context.user_data();
    assert_eq!(seen.len(), 1);
    assert_eq!(seen[0].0, 0);
    assert!(seen[0].1 <= 3);
    assert_eq!(seen[0].2, 5);
}

#[test]
fn stopped_stream_scans_afresh() {
    let mut scanner = stream_scanner(&[(0, b"ab")], StopsFirst);
    assert_eq!(scan_stream(&mut scanner, b"ab"), Ok(Scan::Terminate));
    assert_eq!(scanner.context.user_data().len(), 1);
    assert_eq!(scan_stream(&mut scanner, b"ab"), Ok(Scan::Continue));
    assert_eq!(scanner.context.user_data(), &vec![(0, 0, 2), (0, 0, 2)]);
    assert_eq!(scan_stream(&mut scanner, b"ab"), Ok(Scan::Continue));
    assert_eq!(scanner.context.user_data(), &vec![(0, 0, 2), (0, 0, 2), (0, 0, 4)]);
}

#[test]
fn stream_stopped_by_a_failure_scans_afresh() {
    let mut scanner = stream_scanner(&[(0, b"ab"), (1, b"cd")], FailsOn(1));
    assert_eq!(scan_stream(&mut scanner, b"cd"), Err(Error::HandlerFailed(1)));
    assert_eq!(scan_stream(&mut scanner, b"ab"), Ok(Scan::Continue));
    assert_eq!(scanner.context.user_data(), &vec![(1, 0, 2), (0, 0, 2)]);
}

#[test]
fn scan_after_a_stopped_one_asks_for_a_reset_first() {
    let mut scanner = stream_scanner(&[(0, b"ab")], Recorder);
    assert_eq!(scanner.begin_scan(b"abc"), (false, 3));
    assert_eq!(scanner.finish(HS_SCAN_TERMINATED), Ok(Scan::Terminate));
    assert!(scanner.stopped);
    assert_eq!(scanner.begin_scan(b"ab"), (true, 2));
    assert!(scanner.stopped);
    assert_eq!(scanner.finish(HS_SUCCESS), Ok(Scan::Continue));
    assert!(!scanner.stopped);
    assert_eq!(scanner.begin_scan(b""), (false, 0));
}

#[test]
fn engine_failure_does_not_mark_the_stream_stopped() {
    let mut scanner = stream_scanner(&[(0, b"ab")], Recorder);
    scanner.begin_scan(b"ab");
    assert_eq!(scanner.finish(HS_NOMEM), Err(Error::EngineStatus(HyperscanErrorCode::Nomem, -2)));
    assert!(!scanner.stopped);
    assert_eq!(scanner.begin_scan(b"ab"), (false, 2));
}

#[test]
fn reset_of_a_stopped_stream_leaves_it_running() {
    let mut scanner = stream_scanner(&[(0, b"ab")], Stopper);
    assert_eq!(scan_stream(&mut scanner, b"ab"), Ok(Scan::Terminate));
    assert!(scanner.stopped);
    assert_eq!(reset_stream(&mut scanner), Ok(Scan::Continue));
    assert!(!scanner.stopped);
    assert_eq!(scanner.begin_scan(b"ab"), (false, 2));
}

#[test]
fn block_scan_reports_one_match() {
    let db = block_db(&[(0, b"ab")]);
    let mut scanner = db.create_scanner((), Context::new(Vec::new(), Recorder));
    let (result, calls) = scan_block(&mut scanner, b"xxxabxxx");
    assert_eq!(result, Ok(Scan::Continue));
    assert_eq!(calls, 1);
    let seen = scanner.context.user_data();
    assert_eq!(seen.len(), 1);
    assert_eq!(seen[0].0, 0);
    assert!(seen[0].1 <= 3);
    assert_eq!(seen[0].2, 5);
}

#[test]
fn block_scan_gives_the_engine_the_length_of_the_data() {
    let db = block_db(&[]);
    let mut scanner = db.create_scanner((), Context::new(Vec::new(), Recorder));
    assert_eq!(scanner.begin_scan(b"xxxabxxx"), 8);
    assert_eq!(scanner.begin_scan(b""), 0);
}

#[test]
fn terminate_on_first_match_stops_after_one_call() {
    let db = block_db(&[(0, b"ab")]);
    let mut scanner = db.create_scanner((), Context::new(Vec::new(), Stopper));
    let (result, calls) = scan_block(&mut scanner, b"ab ab ab");
    assert_eq!(result, Ok(Scan::Terminate));
    assert_eq!(calls, 1);
    assert_eq!(scanner.context.user_data(), &vec![(0, 0, 2)]);
}

#[test]
fn terminated_scanner_scans_again() {
    let db = block_db(&[(0, b"ab")]);
    let mut scanner = db.create_scanner((), Context::new(Vec::new(), Stopper));
    assert_eq!(scan_block(&mut scanner, b"ab ab").0, Ok(Scan::Terminate));
    assert_eq!(scan_block(&mut scanner, b"none").0, Ok(Scan::Continue));
    assert_eq!(scan_block(&mut scanner, b"xab").0, Ok(Scan::Terminate));
    assert_eq!(scanner.context.user_data(), &vec![(0, 0, 2), (0, 0, 3)]);
}

#[test]
fn failure_on_first_match_is_returned_as_it_was() {
    let db = block_db(&[(0, b"ab")]);
    let message = String::from("handler gave up at the first match");
    let mut scanner = db.create_scanner((), Context::new(Vec::new(), Failer(message.clone())));
    let (result, calls) = scan_block(&mut scanner, b"ab ab ab");
    assert_eq!(result, Err(Error::HandlerFailed(message)));
    assert_eq!(calls, 1);
}

#[test]
fn failed_scanner_is_not_poisoned() {
    let db = block_db(&[(0, b"ab"), (1, b"cd")]);
    let mut scanner = db.create_scanner((), Context::new(Vec::new(), FailsOn(1)));
    assert_eq!(scan_block(&mut scanner, b"ab cd ab").0, Err(Error::HandlerFailed(1)));
    assert_eq!(scan_block(&mut scanner, b"ab ab").0, Ok(Scan::Continue));
    assert_eq!(scanner.context.user_data(), &vec![(0, 0, 2), (1, 0, 5), (0, 0, 2), (0, 0, 5)]);
}

#[test]
fn engine_failure_is_an_engine_status() {
    let db = block_db(&[(0, b"ab")]);
    let mut scanner = db.create_scanner((), Context::new(Vec::new(), Recorder));
    scanner.begin_scan(b"ab");
    assert_eq!(scanner.finish(-10), Err(Error::EngineStatus(HyperscanErrorCode::ScratchInUse, -10)));
}

#[test]
fn stream_in_two_chunks_matches_like_one_block() {
    let list: &[(u32, &[u8])] = &[(0, b"bc"), (1, b"cd"), (2, b"ab")];
    let db = block_db(list);
    let mut block = db.create_scanner((), Context::new(Vec::new(), Recorder));
    assert_eq!(scan_block(&mut block, b"abcd").0, Ok(Scan::Continue));

    let mut stream = stream_scanner(list, Recorder);
    assert_eq!(scan_stream(&mut stream, b"ab"), Ok(Scan::Continue));
    assert_eq!(scan_stream(&mut stream, b"cd"), Ok(Scan::Continue));

    assert_eq!(stream.context.user_data(), block.context.user_data());
    assert_eq!(block.context.user_data(), &vec![(2, 0, 2), (0, 0, 3), (1, 0, 4)]);
}

#[test]
fn stream_after_reset_behaves_like_new() {
    let list: &[(u32, &[u8])] = &[(0, b"ab"), (1, b"ba")];
    let mut fresh = stream_scanner(list, Recorder);
    assert_eq!(scan_stream(&mut fresh, b"ab"), Ok(Scan::Continue));

    let mut used = stream_scanner(list, Recorder);
    assert_eq!(scan_stream(&mut used, b"xxb"), Ok(Scan::Continue));
    assert_eq!(reset_stream(&mut used), Ok(Scan::Continue));
    let before = used.context.user_data().len();
    assert_eq!(scan_stream(&mut used, b"ab"), Ok(Scan::Continue));

    assert_eq!(&used.context.user_data()[before..], &fresh.context.user_data()[..]);
    assert_eq!(fresh.context.user_data(), &vec![(0, 0, 2)]);
}

#[test]
fn reset_forgets_a_failure_of_the_scan_before() {
    let mut scanner = stream_scanner(&[(0, b"ab")], Failer(String::from("once")));
    scanner.begin_scan(b"ab");
    scanner.context.on_match(0, 0, 2);
    scanner.begin_reset();
    assert_eq!(scanner.finish(HS_SUCCESS), Ok(Scan::Continue));
}

#[test]
fn reset_reports_what_its_callback_did() {
    let mut scanner = stream_scanner(&[(0, b"ab")], Stopper);
    scanner.begin_reset();
    assert_eq!(scanner.context.on_match(0, 0, 2), 1);
    assert_eq!(scanner.finish(HS_SCAN_TERMINATED), Ok(Scan::Terminate));
}

#[test]
fn vectored_scan_matches_like_one_block() {
    let list: &[(u32, &[u8])] = &[(0, b"bc"), (1, b"abcd")];
    let db = block_db(list);
    let mut block = db.create_scanner((), Context::new(Vec::new(), Recorder));
    assert_eq!(scan_block(&mut block, b"abcd").0, Ok(Scan::Continue));

    let db = VectoredDatabase::new::<()>(Ok(literals(list))).unwrap();
    let mut vectored = db.create_scanner((), Context::new(Vec::new(), Recorder));
    assert_eq!(scan_vectored(&mut vectored, vec![b"ab", b"cd"]), Ok(Scan::Continue));

    assert_eq!(vectored.context.user_data(), block.context.user_data());
    assert_eq!(block.context.user_data(), &vec![(0, 0, 3), (1, 0, 4)]);
}

#[test]
fn vectored_scan_gives_the_engine_each_length_in_order() {
    let db = VectoredDatabase::new::<()>(Ok(0u8)).unwrap();
    let mut scanner = db.create_scanner((), Context::new(Vec::<Match>::new(), Recorder));
    let buffers: Vec<&[u8]> = vec![b"ab", b"", b"cdefg"];
    assert_eq!(scanner.begin_scan(&buffers), (vec![2, 0, 5], 3));
    assert_eq!(scanner.begin_scan(&Vec::new()), (Vec::new(), 0));
}

#[test]
fn begin_scan_forgets_a_failure_of_the_scan_before() {
    let db = VectoredDatabase::new::<()>(Ok(0u8)).unwrap();
    let mut scanner = db.create_scanner((), Context::new(Vec::<Match>::new(), Recorder));
    scanner.context.record(Err(String::from("stale")));
    scanner.begin_scan(&vec![&b"ab"[..]]);
    assert_eq!(scanner.finish(HS_SUCCESS), Ok(Scan::Continue));
}

#[test]
fn handler_is_shown_every_match_until_it_halts() {
    let db = block_db(&[(0, b"a"), (1, b"b")]);
    let mut scanner = db.create_scanner((), Context::new(Vec::new(), FailsOn(1)));
    let (result, calls) = scan_block(&mut scanner, b"aaba");
    assert_eq!(result, Err(Error::HandlerFailed(1)));
    assert_eq!(calls, 3);
    assert_eq!(scanner.context.user_data(), &vec![(0, 0, 1), (0, 0, 2), (1, 0, 3)]);

    let mut scanner = db.create_scanner((), Context::new(Vec::new(), Recorder));
    let (result, calls) = scan_block(&mut scanner, b"aaba");
    assert_eq!(result, Ok(Scan::Continue));
    assert_eq!(calls, 4);
}
