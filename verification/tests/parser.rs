use wasi_vfs_cli::binding::{BindingError, parse_map_dirs};

fn expect_ok(s: &str) -> (String, String) {
    match parse_map_dirs(s) {
        Ok(gh) => gh,
        Err(BindingError::InvalidBindingSyntax { input }) => {
            panic!("expected {:?} to parse, got error on {:?}", s, input)
        }
    }
}

fn expect_err(s: &str) {
    match parse_map_dirs(s) {
        Ok(gh) => panic!("expected {:?} to fail, got {:?}", s, gh),
        Err(BindingError::InvalidBindingSyntax { input }) => {
            assert_eq!(input, s, "the error must report the original string");
        }
    }
}

#[test]
fn parses_simple_binding() {
    let (guest, host) = expect_ok("a::b");
    assert_eq!(guest, "a");
    assert_eq!(host, "b");
}

#[test]
fn parses_path_binding() {
    let (guest, host) = expect_ok("/data::./fixtures");
    assert_eq!(guest, "/data");
    assert_eq!(host, "./fixtures");
}

#[test]
fn round_trips_on_one_separator() {
    for s in ["g::h", "/mnt/data::/var/tmp/tree", "a:::b", "x y::z w"] {
        let (guest, host) = expect_ok(s);
        assert_eq!(format!("{}::{}", guest, host), s);
    }
}

#[test]
fn leftmost_separator_wins() {
    let (guest, host) = expect_ok("a:::b");
    assert_eq!(guest, "a");
    assert_eq!(host, ":b");
}

#[test]
fn rejects_zero_separators() {
    expect_err("");
    expect_err("nosep");
    expect_err("a:b");
}

#[test]
fn rejects_two_or_more_separators() {
    expect_err("a::b::c");
    expect_err("::::");
    expect_err("g::h::i::j");
}

#[test]
fn rejects_empty_segments() {
    expect_err("::");
    expect_err("::host");
    expect_err("guest::");
    expect_err(":::");
}

#[test]
fn single_colons_are_not_separators() {
    let (guest, host) = expect_ok("a:b::c:d");
    assert_eq!(guest, "a:b");
    assert_eq!(host, "c:d");
}
