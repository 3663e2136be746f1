use llhd_playground::errors::Error;
use llhd_playground::resolver::resolve_module;

#[test]
fn resolves_simple_module() {
    assert_eq!(resolve_module("module foo; endmodule").unwrap(), "foo");
}

#[test]
fn resolves_leftmost_module() {
    assert_eq!(resolve_module("module alpha; module beta;").unwrap(), "alpha");
}

#[test]
fn resolves_underscore_name() {
    assert_eq!(resolve_module("module  foo_bar(input x);").unwrap(), "foo_bar");
}

#[test]
fn resolves_across_newline() {
    assert_eq!(resolve_module("// header\nmodule\ttop\n();").unwrap(), "top");
}

#[test]
fn resolves_name_at_end_of_input() {
    assert_eq!(resolve_module("module last").unwrap(), "last");
}

#[test]
fn keyword_needs_word_boundary() {
    // `endmodule` must not be read as a module declaration.
    assert_eq!(resolve_module("endmodule foo"), Err(Error::UnableToFindModule));
    assert_eq!(resolve_module("xmodule foo"), Err(Error::UnableToFindModule));
    assert_eq!(resolve_module("1module foo"), Err(Error::UnableToFindModule));
}

#[test]
fn boundary_after_underscore_is_no_boundary() {
    assert_eq!(resolve_module("_module foo"), Err(Error::UnableToFindModule));
}

#[test]
fn name_followed_by_digit_does_not_match() {
    // The name may hold only letters and underscores, and must end on a
    // word boundary: a digit right after the letters breaks the match.
    assert_eq!(resolve_module("module foo1;"), Err(Error::UnableToFindModule));
}

#[test]
fn later_declaration_found_after_broken_first() {
    assert_eq!(resolve_module("module foo1; module bar;").unwrap(), "bar");
}

#[test]
fn missing_module_fails() {
    assert_eq!(resolve_module("endmodule"), Err(Error::UnableToFindModule));
    assert_eq!(resolve_module(""), Err(Error::UnableToFindModule));
    assert_eq!(resolve_module("module"), Err(Error::UnableToFindModule));
    assert_eq!(resolve_module("module;"), Err(Error::UnableToFindModule));
    assert_eq!(resolve_module("module 1a;"), Err(Error::UnableToFindModule));
}

#[test]
fn keyword_at_start_of_input_matches() {
    assert_eq!(resolve_module("module m;").unwrap(), "m");
}

#[test]
fn find_module_error_message() {
    let err = resolve_module("nothing here").unwrap_err();
    assert_eq!(err.message(), "Unable to find a module in the input");
}
