use dynload::{Library, LoadError, OpenRequest, RtldMain, RtldOr, RtldValue, SymRequest, SymStep};

/// A loader that knows a few symbols of one library and counts its calls.
struct FakeLoader {
    known_path: &'static str,
    handle: usize,
    symbols: Vec<(&'static str, usize)>,
    opens: usize,
    resolves: usize,
    closes: usize,
    last_mask: i32,
    last_symbol: Option<String>,
}

fn fake_loader() -> FakeLoader {
    FakeLoader {
        known_path: "libknown.so",
        handle: 0x7f00_1000,
        symbols: vec![("known_symbol", 0x7f00_2040), ("", 0x7f00_3000)],
        opens: 0,
        resolves: 0,
        closes: 0,
        last_mask: -1,
        last_symbol: None,
    }
}

fn fake_open(loader: &mut FakeLoader, request: &OpenRequest) -> usize {
    loader.opens += 1;
    loader.last_mask = request.mask;
    if request.name == loader.known_path {
        loader.handle
    } else {
        0
    }
}

fn fake_resolve(loader: &mut FakeLoader, request: &SymRequest) -> usize {
    loader.resolves += 1;
    loader.last_symbol = request.symbol().map(|text| text.to_string());
    assert_eq!(request.handle, loader.handle);
    let wanted = request.symbol().unwrap_or("");
    for (name, address) in &loader.symbols {
        if *name == wanted {
            return *address;
        }
    }
    0
}

fn open_with(
    loader: &mut FakeLoader,
    path: &str,
    flags: RtldValue,
) -> Result<Library, LoadError> {
    let request = Library::open(path.to_string(), flags)?;
    let handle = fake_open(loader, &request);
    Library::new(request, handle)
}

fn resolve_with(loader: &mut FakeLoader, library: &mut Library, name: &str) -> Option<usize> {
    match library.sym(name.to_string()) {
        SymStep::Done(answer) => answer,
        SymStep::Resolve(request) => {
            let address = fake_resolve(loader, &request);
            library.resolved(request, address)
        }
    }
}

fn close_with(loader: &mut FakeLoader, library: Library) {
    if let Some(handle) = library.close() {
        assert_eq!(handle, loader.handle);
        loader.closes += 1;
    }
}

#[test]
fn open_hands_the_path_and_the_mask_to_the_loader() {
    let flags = RtldValue::new(RtldMain::Now).with(RtldOr::Global);
    let request = Library::open("libknown.so".to_string(), flags).unwrap();
    assert_eq!(request.name, "libknown.so");
    assert_eq!(request.mask, libc::RTLD_NOW | libc::RTLD_GLOBAL);
    assert_eq!(request.mask, 0x102);
}

#[test]
fn open_accepts_the_empty_path() {
    let request = Library::open(String::new(), RtldValue::new(RtldMain::Lazy)).unwrap();
    assert_eq!(request.name, "");
    assert_eq!(request.mask, 0x1);
}

#[test]
fn a_path_with_a_terminator_is_invalid_and_the_loader_is_not_asked() {
    let mut loader = fake_loader();
    let result = open_with(&mut loader, "lib\0known.so", RtldValue::new(RtldMain::Lazy));
    assert!(matches!(result, Err(LoadError::InvalidPath)));
    assert_eq!(loader.opens, 0);
    assert_eq!(loader.resolves, 0);
    assert_eq!(loader.closes, 0);
}

#[test]
fn a_terminator_at_either_end_is_invalid_too() {
    let first = Library::open("\0libknown.so".to_string(), RtldValue::new(RtldMain::Now));
    assert_eq!(first.err(), Some(LoadError::InvalidPath));
    let last = Library::open("libknown.so\0".to_string(), RtldValue::new(RtldMain::Now));
    assert_eq!(last.err(), Some(LoadError::InvalidPath));
}

#[test]
fn a_path_that_the_loader_does_not_find_fails_to_open() {
    let mut loader = fake_loader();
    let result = open_with(&mut loader, "libmissing.so", RtldValue::new(RtldMain::Lazy));
    assert!(matches!(result, Err(LoadError::OpenFailed)));
    assert_eq!(loader.opens, 1);
    assert_eq!(loader.last_mask, libc::RTLD_LAZY);
}

#[test]
fn the_null_handle_is_open_failed_whatever_the_flags() {
    let all = RtldValue::new(RtldMain::Now)
        .with(RtldOr::Global)
        .with(RtldOr::NoDelete)
        .with(RtldOr::NoLoad)
        .with(RtldOr::DeepBind);
    let request = Library::open("libknown.so".to_string(), all).unwrap();
    assert_eq!(Library::new(request, 0).err(), Some(LoadError::OpenFailed));
}

#[test]
fn an_opened_library_owns_the_handle_and_starts_with_an_empty_cache() {
    let mut loader = fake_loader();
    let library = open_with(&mut loader, "libknown.so", RtldValue::new(RtldMain::Lazy)).unwrap();
    assert_eq!(library.handle(), 0x7f00_1000);
    assert_eq!(library.name(), "libknown.so");
    assert_eq!(library.table().len(), 0);
    assert!(library.table().is_empty());
    assert_eq!(loader.opens, 1);
}

#[test]
fn a_known_symbol_is_found_and_a_fabricated_one_is_absent() {
    let mut loader = fake_loader();
    let mut library =
        open_with(&mut loader, "libknown.so", RtldValue::new(RtldMain::Now)).unwrap();
    assert_eq!(resolve_with(&mut loader, &mut library, "known_symbol"), Some(0x7f00_2040));
    assert_eq!(resolve_with(&mut loader, &mut library, "definitely_not_a_symbol_xyz"), None);
}

#[test]
fn the_loader_resolves_a_name_once() {
    let mut loader = fake_loader();
    let mut library =
        open_with(&mut loader, "libknown.so", RtldValue::new(RtldMain::Lazy)).unwrap();
    let first = resolve_with(&mut loader, &mut library, "known_symbol");
    assert_eq!(loader.resolves, 1);
    let second = resolve_with(&mut loader, &mut library, "known_symbol");
    assert_eq!(loader.resolves, 1);
    assert_eq!(first, Some(0x7f00_2040));
    assert_eq!(second, first);
    assert_eq!(library.table().len(), 1);
    assert_eq!(library.table().get("known_symbol"), Some(&0x7f00_2040));
}

#[test]
fn absence_is_cached_like_an_address() {
    let mut loader = fake_loader();
    let mut library =
        open_with(&mut loader, "libknown.so", RtldValue::new(RtldMain::Lazy)).unwrap();
    assert_eq!(resolve_with(&mut loader, &mut library, "definitely_not_a_symbol_xyz"), None);
    assert_eq!(loader.resolves, 1);
    assert_eq!(resolve_with(&mut loader, &mut library, "definitely_not_a_symbol_xyz"), None);
    assert_eq!(resolve_with(&mut loader, &mut library, "definitely_not_a_symbol_xyz"), None);
    assert_eq!(loader.resolves, 1);
    assert!(library.table().contains_key("definitely_not_a_symbol_xyz"));
    assert_eq!(library.table().get("definitely_not_a_symbol_xyz"), Some(&0));
}

#[test]
fn the_cache_grows_by_one_name_for_each_new_lookup() {
    let mut loader = fake_loader();
    let mut library =
        open_with(&mut loader, "libknown.so", RtldValue::new(RtldMain::Lazy)).unwrap();
    resolve_with(&mut loader, &mut library, "known_symbol");
    resolve_with(&mut loader, &mut library, "another");
    resolve_with(&mut loader, &mut library, "known_symbol");
    resolve_with(&mut loader, &mut library, "a third");
    assert_eq!(loader.resolves, 3);
    assert_eq!(library.table().len(), 3);
    assert_eq!(library.table().get("known_symbol"), Some(&0x7f00_2040));
    assert_eq!(library.table().get("another"), Some(&0));
    assert_eq!(library.table().get("a third"), Some(&0));
}

#[test]
fn a_miss_asks_the_loader_with_the_handle_and_the_name() {
    let library = Library::from_raw(42, "raw".to_string());
    match library.sym("entry".to_string()) {
        SymStep::Resolve(request) => {
            assert_eq!(request.handle, 42);
            assert_eq!(request.name, "entry");
            assert_eq!(request.symbol(), Some("entry"));
        }
        SymStep::Done(_) => panic!("the loader was not asked"),
    }
    assert_eq!(library.table().len(), 0);
}

#[test]
fn the_empty_name_goes_to_the_loader_as_the_null_name() {
    let mut loader = fake_loader();
    let mut library =
        open_with(&mut loader, "libknown.so", RtldValue::new(RtldMain::Lazy)).unwrap();
    match library.sym(String::new()) {
        SymStep::Resolve(request) => {
            assert_eq!(request.name, "");
            assert_eq!(request.symbol(), None);
        }
        SymStep::Done(_) => panic!("the loader was not asked"),
    }
    assert_eq!(resolve_with(&mut loader, &mut library, ""), Some(0x7f00_3000));
    assert_eq!(loader.last_symbol, None);
    assert_eq!(resolve_with(&mut loader, &mut library, ""), Some(0x7f00_3000));
    assert_eq!(loader.resolves, 1);
}

#[test]
fn a_null_handle_resolves_nothing_and_asks_nobody() {
    let mut loader = fake_loader();
    let mut library = Library::from_raw(0, "nothing".to_string());
    assert_eq!(library.handle(), 0);
    assert_eq!(library.name(), "nothing");
    assert_eq!(resolve_with(&mut loader, &mut library, "known_symbol"), None);
    assert_eq!(resolve_with(&mut loader, &mut library, "known_symbol"), None);
    assert_eq!(loader.resolves, 0);
    assert_eq!(library.table().len(), 0);
}

#[test]
fn a_name_with_a_terminator_is_absent_and_is_not_cached() {
    let mut loader = fake_loader();
    let mut library =
        open_with(&mut loader, "libknown.so", RtldValue::new(RtldMain::Lazy)).unwrap();
    assert_eq!(resolve_with(&mut loader, &mut library, "known\0symbol"), None);
    assert_eq!(loader.resolves, 0);
    assert_eq!(library.table().len(), 0);
    assert!(matches!(library.sym("\0".to_string()), SymStep::Done(None)));
}

#[test]
fn the_cache_is_looked_at_before_the_handle() {
    let mut library = Library::from_raw(0, "raw".to_string());
    let request = SymRequest { handle: 0, name: "entry".to_string() };
    assert_eq!(library.resolved(request, 0x1234), Some(0x1234));
    assert!(matches!(library.sym("entry".to_string()), SymStep::Done(Some(0x1234))));
    assert!(matches!(library.sym("other".to_string()), SymStep::Done(None)));
}

#[test]
fn a_recorded_answer_replaces_nothing_else() {
    let mut library = Library::from_raw(9, "raw".to_string());
    let first = SymRequest { handle: 9, name: "first".to_string() };
    let second = SymRequest { handle: 9, name: "second".to_string() };
    assert_eq!(library.resolved(first, 100), Some(100));
    assert_eq!(library.resolved(second, 0), None);
    assert!(matches!(library.sym("first".to_string()), SymStep::Done(Some(100))));
    assert!(matches!(library.sym("second".to_string()), SymStep::Done(None)));
    assert!(matches!(library.sym("third".to_string()), SymStep::Resolve(_)));
    assert_eq!(library.table().len(), 2);
}

#[test]
fn non_ascii_names_are_resolved_like_any_other() {
    let mut library = Library::from_raw(9, "raw".to_string());
    match library.sym("símbolo_ß".to_string()) {
        SymStep::Resolve(request) => {
            assert_eq!(request.symbol(), Some("símbolo_ß"));
            assert_eq!(library.resolved(request, 77), Some(77));
        }
        SymStep::Done(_) => panic!("the loader was not asked"),
    }
    assert!(matches!(library.sym("símbolo_ß".to_string()), SymStep::Done(Some(77))));
}

#[test]
fn closing_releases_the_handle_once() {
    let mut loader = fake_loader();
    let mut library =
        open_with(&mut loader, "libknown.so", RtldValue::new(RtldMain::Lazy)).unwrap();
    resolve_with(&mut loader, &mut library, "known_symbol");
    close_with(&mut loader, library);
    assert_eq!(loader.closes, 1);
    assert_eq!(loader.opens, 1);
}

#[test]
fn close_names_the_handle_to_release() {
    assert_eq!(Library::from_raw(0x55aa, "raw".to_string()).close(), Some(0x55aa));
    assert_eq!(Library::from_raw(usize::MAX, "raw".to_string()).close(), Some(usize::MAX));
}

#[test]
fn a_null_handle_is_not_closed() {
    let mut loader = fake_loader();
    let library = Library::from_raw(0, "nothing".to_string());
    assert_eq!(Library::from_raw(0, "nothing".to_string()).close(), None);
    close_with(&mut loader, library);
    assert_eq!(loader.closes, 0);
}
