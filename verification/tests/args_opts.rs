//! The argument and option views handed to handlers.

use zsh_module::{CStrArray, Opts};

#[test]
fn empty_argument_array_has_length_zero() {
    let args = CStrArray::from_items(Vec::new());
    assert_eq!(args.len(), 0);
    assert!(args.get(0).is_none());
}

#[test]
fn argument_array_is_bounds_checked() {
    let args = CStrArray::from_items(vec![b"one".to_vec(), b"two".to_vec()]);
    assert_eq!(args.len(), 2);
    assert_eq!(args.get(0).unwrap(), &b"one".to_vec());
    assert_eq!(args.get(1).unwrap(), &b"two".to_vec());
    assert!(args.get(2).is_none());
    assert!(args.get(usize::MAX).is_none());
}

fn opts_with(entries: &[(u8, u8)], args: Vec<Vec<u8>>) -> Opts {
    let mut ind = vec![0u8; 256];
    for &(c, v) in entries {
        ind[c as usize] = v;
    }
    Opts::new(ind, args).unwrap()
}

#[test]
fn minus_and_plus_bits_are_read_exactly() {
    let opts = opts_with(&[(b'm', 1), (b'p', 2)], Vec::new());
    assert!(opts.is_minus(b'm'));
    assert!(!opts.is_plus(b'm'));
    assert!(opts.is_set(b'm'));

    assert!(opts.is_plus(b'p'));
    assert!(!opts.is_minus(b'p'));
    assert!(opts.is_set(b'p'));

    assert!(!opts.is_set(b'q'));
    assert!(!opts.is_minus(b'q'));
    assert!(!opts.is_plus(b'q'));
}

#[test]
fn option_argument_is_found_by_encoded_index() {
    // entry (k + 1) << 2 points at argument k
    let opts = opts_with(
        &[(b'a', 1 << 2), (b'b', 2 << 2)],
        vec![b"first".to_vec(), b"second".to_vec()],
    );
    assert_eq!(opts.get_arg(b'a').unwrap(), &b"first".to_vec());
    assert_eq!(opts.get_arg(b'b').unwrap(), &b"second".to_vec());
}

#[test]
fn option_without_argument_yields_none() {
    let opts = opts_with(&[(b'm', 1), (b'p', 2)], vec![b"unused".to_vec()]);
    assert!(opts.get_arg(b'm').is_none());
    assert!(opts.get_arg(b'p').is_none());
    assert!(opts.get_arg(b'x').is_none());
}

#[test]
fn option_table_of_wrong_size_is_refused() {
    assert!(Opts::new(vec![0u8; 255], Vec::new()).is_none());
    assert!(Opts::new(Vec::new(), Vec::new()).is_none());
}

#[test]
fn option_table_pointing_outside_arguments_is_refused() {
    let mut ind = vec![0u8; 256];
    ind[b'a' as usize] = 2 << 2; // argument index 1, but only one argument
    assert!(Opts::new(ind, vec![b"only".to_vec()]).is_none());
}
