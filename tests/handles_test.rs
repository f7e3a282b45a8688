use kunquant_rs::{Executor, KunQuantError, Library, ThreadMode};

#[test]
fn null_executor_is_a_creation_failure() {
    assert_eq!(Executor::single_thread(0).err(), Some(KunQuantError::ExecutorCreationFailed));
    assert_eq!(Executor::multi_thread(0, 0).err(), Some(KunQuantError::ExecutorCreationFailed));
}

#[test]
fn executors_keep_handle_and_mode() {
    let s = Executor::single_thread(0x20).unwrap();
    assert_eq!(s.handle(), 0x20);
    assert_eq!(s.thread_mode(), ThreadMode::Single);
    let m = Executor::multi_thread(4, 0x40).unwrap();
    assert_eq!(m.handle(), 0x40);
    assert_eq!(m.thread_mode(), ThreadMode::Multi(4));
}

#[test]
fn missing_library_file_fails_to_load() {
    assert_eq!(
        Library::load_request("test_libs/none.so", false),
        Err(KunQuantError::LibraryLoadFailed { path: "test_libs/none.so".to_string() })
    );
}

#[test]
fn existing_library_path_becomes_a_c_string() {
    assert_eq!(Library::load_request("lib.so", true), Ok(b"lib.so\0".to_vec()));
    assert_eq!(
        Library::load_request("li\0b.so", true),
        Err(KunQuantError::StringConversion { nul_position: 2 })
    );
}

#[test]
fn rejected_library_fails_to_load() {
    assert_eq!(
        Library::load("bad.so", 0).err(),
        Some(KunQuantError::LibraryLoadFailed { path: "bad.so".to_string() })
    );
    let lib = Library::load("good.so", 0x80).unwrap();
    assert_eq!(lib.handle(), 0x80);
    assert_eq!(lib.path(), "good.so");
}

#[test]
fn missing_module_names_itself_and_library_stays_usable() {
    let lib = Library::load("factors.so", 0x80).unwrap();
    let missing = lib.get_module("no_such_module", 0);
    assert_eq!(
        missing.err(),
        Some(KunQuantError::ModuleNotFound { name: "no_such_module".to_string() })
    );
    let m = lib.get_module("simple_test", 0x90).unwrap();
    assert_eq!(m.handle(), 0x90);
    assert_eq!(m.library().handle(), 0x80);
}
