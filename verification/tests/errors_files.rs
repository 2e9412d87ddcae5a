//! Error translation, messages, and checked file paths.

use zsh_module::{
    eval_outcome, format_isize, source_outcome, FilePath, VarError, VarIntrospectionError,
    VarTypesetError, ZError, SOURCE_OK,
};

#[test]
fn eval_outcome_maps_the_error_flag() {
    assert!(eval_outcome(0).is_ok());
    assert!(matches!(eval_outcome(1), Err(ZError::EvalError(1))));
    assert!(matches!(eval_outcome(57), Err(ZError::EvalError(57))));
}

#[test]
fn source_outcome_maps_the_return_value() {
    assert!(source_outcome(SOURCE_OK).is_ok());
    assert!(matches!(source_outcome(1), Err(ZError::SourceError(1))));
    assert!(matches!(source_outcome(-3), Err(ZError::SourceError(-3))));
}

#[test]
fn zerror_messages_describe_each_variant() {
    assert_eq!(ZError::FileNotFound.message(), "file not found");
    assert_eq!(ZError::DuplicateName.message(), "duplicate builtin name");
    assert_eq!(ZError::EvalError(2).message(), "eval error: 2");
    assert_eq!(ZError::SourceError(-17).message(), "source error: -17");
    assert_eq!(ZError::Return(9).message(), "received return code: 9");
    assert_eq!(ZError::Return(1234567890).message(), "received return code: 1234567890");
    assert_eq!(ZError::Return(0).message(), "received return code: 0");
    assert_eq!(
        ZError::Conversion(String::from("bad bytes")).message(),
        "conversion error: bad bytes"
    );
}

#[test]
fn var_error_messages_name_the_interaction() {
    let e = VarError::Typeset(VarTypesetError::ReadOnly);
    assert_eq!(e.message(), "error setting variable type: variable is read-only");
    let e = VarError::ValueGet(VarIntrospectionError::Nonexistent);
    assert_eq!(e.message(), "error getting variable value: variable doesn't exist");
    let e = VarError::Send(String::from("closed"));
    assert_eq!(e.message(), "error sending to internal channel: closed");
    let e = VarError::ValueSet(VarIntrospectionError::NotPermitted);
    assert_eq!(e.message(), "error setting variable value: not permitted");
    let e = VarError::ValueUnset(VarIntrospectionError::MisalignedParamTab);
    assert_eq!(e.message(), "error unsetting variable: misaligned paramtab");
    let e = VarError::Typeset(VarTypesetError::TieNotPermitted(String::from("other")));
    assert_eq!(e.message(), "error setting variable type: not permitted to tie variable");
}

#[test]
fn var_errors_convert_into_zerror() {
    let e: VarError = VarTypesetError::Disallowed.into();
    assert!(matches!(e, VarError::Typeset(VarTypesetError::Disallowed)));
    let z: ZError = ZError::from(e);
    assert!(matches!(z, ZError::Var(_)));
    let z: ZError = ZError::from(5isize);
    assert!(matches!(z, ZError::Return(5)));
}

#[test]
fn missing_file_path_is_rejected() {
    let r = FilePath::new("/surely/not/a/real/path/here");
    assert!(matches!(r, Err(ZError::FileNotFound)));
    let p = FilePath::new_unchecked("/surely/not/a/real/path/here");
    let r = p.set("/surely/not/a/real/path/either");
    assert!(matches!(r, Err(ZError::FileNotFound)));
}

#[test]
fn existing_file_path_is_accepted_with_cached_length() {
    let p = FilePath::new("/").unwrap();
    assert_eq!(p.path, "/");
    assert_eq!(p.string, "/");
    assert_eq!(p.length, 1);
}

#[test]
fn unchecked_path_caches_display_string_and_length() {
    let p = FilePath::new_unchecked("abc/def");
    assert_eq!(p.path, "abc/def");
    assert_eq!(p.string, "abc/def");
    assert_eq!(p.length, 7);
}

#[test]
fn decimal_formatting_is_exact() {
    assert_eq!(format_isize(0), "0");
    assert_eq!(format_isize(7), "7");
    assert_eq!(format_isize(10), "10");
    assert_eq!(format_isize(305), "305");
    assert_eq!(format_isize(-1), "-1");
    assert_eq!(format_isize(-9000), "-9000");
    assert_eq!(format_isize(isize::MAX), isize::MAX.to_string());
    assert_eq!(format_isize(isize::MIN), isize::MIN.to_string());
}
