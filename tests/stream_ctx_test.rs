use kunquant_rs::{Executor, HandleLookup, KunQuantError, Library, StreamContext, HANDLE_NOT_FOUND};

#[test]
fn null_session_is_a_creation_failure() {
    let ex = Executor::single_thread(0x10).unwrap();
    let lib = Library::load("s.so", 0x20).unwrap();
    let m = lib.get_module("simple_stream_test", 0x30).unwrap();
    assert_eq!(StreamContext::new(&ex, &m, 8, 0).err(), Some(KunQuantError::StreamCreationFailed));
    let ctx = StreamContext::new(&ex, &m, 8, 0x40).unwrap();
    assert_eq!(ctx.num_stocks(), 8);
    assert_eq!(ctx.handle(), 0x40);
}

#[test]
fn first_lookup_queries_then_cache_answers() {
    let ex = Executor::single_thread(0x10).unwrap();
    let lib = Library::load("s.so", 0x20).unwrap();
    let m = lib.get_module("simple_stream_test", 0x30).unwrap();
    let mut ctx = StreamContext::new(&ex, &m, 8, 0x40).unwrap();
    assert_eq!(ctx.get_buffer_handle("close"), Ok(HandleLookup::Query(b"close\0".to_vec())));
    assert_eq!(ctx.record_buffer_handle("close", 2), Ok(2));
    for _ in 0..3 {
        assert_eq!(ctx.get_buffer_handle("close"), Ok(HandleLookup::Cached(2)));
    }
    // A resolved name keeps its handle whatever a later answer says.
    assert_eq!(ctx.record_buffer_handle("close", 5), Ok(2));
    assert_eq!(ctx.get_buffer_handle("close"), Ok(HandleLookup::Cached(2)));
    assert_eq!(ctx.get_buffer_handle("open"), Ok(HandleLookup::Query(b"open\0".to_vec())));
}

#[test]
fn unknown_output_is_not_found_and_not_cached() {
    let ex = Executor::single_thread(0x10).unwrap();
    let lib = Library::load("s.so", 0x20).unwrap();
    let m = lib.get_module("simple_stream_test", 0x30).unwrap();
    let mut ctx = StreamContext::new(&ex, &m, 8, 0x40).unwrap();
    assert_eq!(
        ctx.record_buffer_handle("never_produced", HANDLE_NOT_FOUND),
        Err(KunQuantError::BufferHandleNotFound { name: "never_produced".to_string() })
    );
    assert_eq!(
        ctx.get_buffer_handle("never_produced"),
        Ok(HandleLookup::Query(b"never_produced\0".to_vec()))
    );
    assert_eq!(HANDLE_NOT_FOUND, usize::MAX);
}

#[test]
fn push_of_wrong_length_reports_both_lengths() {
    let ex = Executor::multi_thread(2, 0x10).unwrap();
    let lib = Library::load("s.so", 0x20).unwrap();
    let m = lib.get_module("simple_stream_test", 0x30).unwrap();
    let ctx = StreamContext::new(&ex, &m, 8, 0x40).unwrap();
    assert_eq!(
        ctx.push_data("close", 7),
        Err(KunQuantError::BufferSizeMismatch { name: "close".to_string(), expected: 8, actual: 7 })
    );
    assert_eq!(
        ctx.push_data("close", 0),
        Err(KunQuantError::BufferSizeMismatch { name: "close".to_string(), expected: 8, actual: 0 })
    );
    // The length is checked before the name.
    assert_eq!(
        ctx.push_data("bad\0", 9),
        Err(KunQuantError::BufferSizeMismatch { name: "bad\0".to_string(), expected: 8, actual: 9 })
    );
}

#[test]
fn push_of_right_length_resolves_the_handle() {
    let ex = Executor::single_thread(0x10).unwrap();
    let lib = Library::load("s.so", 0x20).unwrap();
    let m = lib.get_module("simple_stream_test", 0x30).unwrap();
    let mut ctx = StreamContext::new(&ex, &m, 8, 0x40).unwrap();
    assert_eq!(ctx.push_data("high", 8), Ok(HandleLookup::Query(b"high\0".to_vec())));
    assert_eq!(ctx.record_buffer_handle("high", 0), Ok(0));
    assert_eq!(ctx.push_data("high", 8), Ok(HandleLookup::Cached(0)));
}

#[test]
fn name_with_nul_never_reaches_the_session() {
    let ex = Executor::single_thread(0x10).unwrap();
    let lib = Library::load("s.so", 0x20).unwrap();
    let m = lib.get_module("simple_stream_test", 0x30).unwrap();
    let mut ctx = StreamContext::new(&ex, &m, 8, 0x40).unwrap();
    let bad = KunQuantError::InvalidBufferName { name: "lo\0w".to_string() };
    assert_eq!(ctx.push_data("lo\0w", 8), Err(bad));
    let conversion = KunQuantError::StringConversion { nul_position: 2 };
    assert_eq!(ctx.get_buffer_handle("lo\0w"), Err(conversion.clone()));
    assert_eq!(ctx.record_buffer_handle("lo\0w", 3), Err(conversion));
}

#[test]
fn current_buffer_view_is_one_value_per_stock() {
    let ex = Executor::single_thread(0x10).unwrap();
    let lib = Library::load("s.so", 0x20).unwrap();
    let m = lib.get_module("simple_stream_test", 0x30).unwrap();
    let ctx = StreamContext::new(&ex, &m, 16, 0x40).unwrap();
    assert_eq!(ctx.current_buffer_len(true), Ok(16));
    assert_eq!(ctx.current_buffer_len(false), Err(KunQuantError::NullPointer));
}
