use soy_native::error::Error;
use soy_native::merger::{
    append_merge, check_int_width, decode_i64, decode_u64, encode_i64, encode_u64, i64_add_merge,
    prepend_merge, u64_add_merge, MergeOperator,
};

fn i64_operands(values: &[i64]) -> Vec<Vec<u8>> {
    values.iter().map(|v| encode_i64(*v).to_vec()).collect()
}

fn u64_operands(values: &[u64]) -> Vec<Vec<u8>> {
    values.iter().map(|v| encode_u64(*v).to_vec()).collect()
}

#[test]
fn int64_add_of_three_operands() {
    let operands = i64_operands(&[3, -1, 10]);
    let merged = i64_add_merge(b"k", None, &operands).unwrap();
    assert_eq!(merged, vec![0, 0, 0, 0, 0, 0, 0, 12]);
    assert_eq!(decode_i64(&merged), 12);
}

#[test]
fn uint64_add_with_existing_value() {
    let existing = encode_u64(5);
    let operands = u64_operands(&[2, 3]);
    let merged = u64_add_merge(b"k", Some(&existing), &operands).unwrap();
    assert_eq!(merged, vec![0, 0, 0, 0, 0, 0, 0, 10]);
}

#[test]
fn append_and_prepend_with_existing_value() {
    let operands = vec![b"c".to_vec(), b"d".to_vec()];
    assert_eq!(append_merge(b"k", Some(b"ab"), &operands), Some(b"abcd".to_vec()));
    assert_eq!(prepend_merge(b"k", Some(b"ab"), &operands), Some(b"cdab".to_vec()));
}

#[test]
fn append_and_prepend_without_existing_value() {
    let operands = vec![b"xy".to_vec(), Vec::new(), b"z".to_vec()];
    assert_eq!(append_merge(b"k", None, &operands), Some(b"xyz".to_vec()));
    assert_eq!(prepend_merge(b"k", None, &operands), Some(b"xyz".to_vec()));
}

#[test]
fn concatenation_of_no_operands_is_the_stored_value() {
    let none: Vec<Vec<u8>> = Vec::new();
    assert_eq!(append_merge(b"k", Some(b"ab"), &none), Some(b"ab".to_vec()));
    assert_eq!(prepend_merge(b"k", Some(b"ab"), &none), Some(b"ab".to_vec()));
    assert_eq!(append_merge(b"k", None, &none), Some(Vec::new()));
    assert_eq!(prepend_merge(b"k", None, &none), Some(Vec::new()));
}

#[test]
fn encode_u64_is_big_endian() {
    assert_eq!(encode_u64(0), [0u8; 8]);
    assert_eq!(encode_u64(0x0102_0304_0506_0708), [1, 2, 3, 4, 5, 6, 7, 8]);
    assert_eq!(encode_u64(u64::MAX), [255u8; 8]);
    assert_eq!(encode_u64(256), [0, 0, 0, 0, 0, 0, 1, 0]);
}

#[test]
fn encode_i64_is_twos_complement() {
    assert_eq!(encode_i64(0), [0u8; 8]);
    assert_eq!(encode_i64(-1), [255u8; 8]);
    assert_eq!(encode_i64(-2), [255, 255, 255, 255, 255, 255, 255, 254]);
    assert_eq!(encode_i64(i64::MAX), [127, 255, 255, 255, 255, 255, 255, 255]);
    assert_eq!(encode_i64(i64::MIN), [128, 0, 0, 0, 0, 0, 0, 0]);
    assert_eq!(encode_i64(12), [0, 0, 0, 0, 0, 0, 0, 12]);
}

#[test]
fn decode_reads_big_endian() {
    assert_eq!(decode_u64(&[1, 2, 3, 4, 5, 6, 7, 8]), 0x0102_0304_0506_0708);
    assert_eq!(decode_u64(&[255u8; 8]), u64::MAX);
    assert_eq!(decode_i64(&[255u8; 8]), -1);
    assert_eq!(decode_i64(&[128, 0, 0, 0, 0, 0, 0, 0]), i64::MIN);
    assert_eq!(decode_i64(&[127, 255, 255, 255, 255, 255, 255, 255]), i64::MAX);
    assert_eq!(decode_i64(&[0, 0, 0, 0, 0, 0, 1, 0]), 256);
}

#[test]
fn encoding_agrees_with_the_standard_library() {
    let samples: [i64; 9] = [0, 1, -1, 255, -256, 65_536, -4_294_967_297, i64::MAX, i64::MIN];
    for v in samples {
        assert_eq!(encode_i64(v), v.to_be_bytes());
        assert_eq!(decode_i64(&v.to_be_bytes()), v);
        let u = v as u64;
        assert_eq!(encode_u64(u), u.to_be_bytes());
        assert_eq!(decode_u64(&u.to_be_bytes()), u);
    }
}

#[test]
fn decode_inverts_encode() {
    for v in [0i64, 7, -7, 1 << 40, -(1 << 40), i64::MAX, i64::MIN] {
        assert_eq!(decode_i64(&encode_i64(v)), v);
    }
    for v in [0u64, 7, 1 << 40, 1 << 63, u64::MAX] {
        assert_eq!(decode_u64(&encode_u64(v)), v);
    }
}

#[test]
fn int64_add_starts_from_the_stored_value() {
    let existing = encode_i64(-20);
    let operands = i64_operands(&[5, 5]);
    let merged = i64_add_merge(b"k", Some(&existing), &operands).unwrap();
    assert_eq!(decode_i64(&merged), -10);
    assert_eq!(merged, vec![255, 255, 255, 255, 255, 255, 255, 246]);
}

#[test]
fn add_of_no_operands_is_the_stored_value_or_zero() {
    let none: Vec<Vec<u8>> = Vec::new();
    assert_eq!(i64_add_merge(b"k", None, &none), Some(vec![0u8; 8]));
    assert_eq!(u64_add_merge(b"k", None, &none), Some(vec![0u8; 8]));
    let existing = encode_i64(-3);
    assert_eq!(i64_add_merge(b"k", Some(&existing), &none), Some(existing.to_vec()));
    let existing = encode_u64(9);
    assert_eq!(u64_add_merge(b"k", Some(&existing), &none), Some(existing.to_vec()));
}

#[test]
fn int64_add_wraps_around() {
    let operands = i64_operands(&[i64::MAX, 1]);
    let merged = i64_add_merge(b"k", None, &operands).unwrap();
    assert_eq!(decode_i64(&merged), i64::MIN);
    let operands = i64_operands(&[i64::MIN, -1]);
    let merged = i64_add_merge(b"k", None, &operands).unwrap();
    assert_eq!(decode_i64(&merged), i64::MAX);
    let operands = i64_operands(&[i64::MAX, 1, -1]);
    let merged = i64_add_merge(b"k", None, &operands).unwrap();
    assert_eq!(decode_i64(&merged), i64::MAX);
}

#[test]
fn uint64_add_wraps_around() {
    let existing = encode_u64(u64::MAX);
    let operands = u64_operands(&[1]);
    let merged = u64_add_merge(b"k", Some(&existing), &operands).unwrap();
    assert_eq!(decode_u64(&merged), 0);
    let operands = u64_operands(&[u64::MAX, u64::MAX]);
    let merged = u64_add_merge(b"k", None, &operands).unwrap();
    assert_eq!(decode_u64(&merged), u64::MAX - 1);
}

#[test]
fn check_int_width_accepts_eight_byte_inputs_only() {
    let good = i64_operands(&[1, 2, 3]);
    assert!(check_int_width(None, &good));
    assert!(check_int_width(Some(&[0u8; 8]), &good));
    assert!(check_int_width(None, &Vec::new()));
    assert!(!check_int_width(Some(&[0u8; 7]), &good));
    assert!(!check_int_width(Some(&[0u8; 9]), &good));
    assert!(!check_int_width(Some(&[]), &Vec::new()));
    let mut bad = i64_operands(&[1, 2]);
    bad.push(vec![0u8; 4]);
    assert!(!check_int_width(None, &bad));
    let mut bad = vec![Vec::new()];
    bad.extend(i64_operands(&[1]));
    assert!(!check_int_width(None, &bad));
}

#[test]
fn merge_runs_the_chosen_reducer() {
    let bytes = vec![b"c".to_vec(), b"d".to_vec()];
    assert_eq!(MergeOperator::Append.merge(b"k", Some(b"ab"), &bytes), Ok(b"abcd".to_vec()));
    assert_eq!(MergeOperator::Prepend.merge(b"k", Some(b"ab"), &bytes), Ok(b"cdab".to_vec()));
    let ints = i64_operands(&[3, -1, 10]);
    assert_eq!(MergeOperator::I64Add.merge(b"k", None, &ints), Ok(encode_i64(12).to_vec()));
    let existing = encode_u64(5);
    let ints = u64_operands(&[2, 3]);
    assert_eq!(
        MergeOperator::U64Add.merge(b"k", Some(&existing), &ints),
        Ok(encode_u64(10).to_vec())
    );
}

#[test]
fn merge_of_a_malformed_integer_is_a_decode_error() {
    let short = vec![vec![0u8; 8], vec![1u8; 3]];
    assert_eq!(MergeOperator::I64Add.merge(b"k", None, &short), Err(Error::DecodeError));
    assert_eq!(MergeOperator::U64Add.merge(b"k", None, &short), Err(Error::DecodeError));
    let good = i64_operands(&[1]);
    assert_eq!(MergeOperator::I64Add.merge(b"k", Some(b"abc"), &good), Err(Error::DecodeError));
    assert_eq!(MergeOperator::U64Add.merge(b"k", Some(b""), &good), Err(Error::DecodeError));
    assert_eq!(MergeOperator::Append.merge(b"k", Some(b"abc"), &short).is_ok(), true);
    assert_eq!(MergeOperator::Prepend.merge(b"k", Some(b"abc"), &short).is_ok(), true);
}

fn merged(op: MergeOperator, stored: Option<&[u8]>, operands: &Vec<Vec<u8>>) -> Vec<u8> {
    op.merge(b"k", stored, operands).unwrap()
}

fn collapse(
    op: MergeOperator,
    before: &[Vec<u8>],
    run: &[Vec<u8>],
    after: &[Vec<u8>],
) -> (Vec<Vec<u8>>, Vec<Vec<u8>>) {
    let mut whole = before.to_vec();
    whole.extend_from_slice(run);
    whole.extend_from_slice(after);
    let mut collapsed = before.to_vec();
    collapsed.push(merged(op, None, &run.to_vec()));
    collapsed.extend_from_slice(after);
    (whole, collapsed)
}

#[test]
fn merging_a_run_first_changes_nothing_for_concatenation() {
    let before = vec![b"a".to_vec(), b"bc".to_vec()];
    let run = vec![b"d".to_vec(), Vec::new(), b"ef".to_vec()];
    let after = vec![b"g".to_vec()];
    for op in [MergeOperator::Append, MergeOperator::Prepend] {
        let (whole, collapsed) = collapse(op, &before, &run, &after);
        assert_eq!(merged(op, Some(b"00"), &collapsed), merged(op, Some(b"00"), &whole));
        assert_eq!(merged(op, None, &collapsed), merged(op, None, &whole));
    }
    let (whole, _) = collapse(MergeOperator::Append, &before, &run, &after);
    assert_eq!(merged(MergeOperator::Append, Some(b"00"), &whole), b"00abcdefg".to_vec());
    assert_eq!(merged(MergeOperator::Prepend, Some(b"00"), &whole), b"abcdefg00".to_vec());
}

#[test]
fn merging_a_run_first_changes_nothing_for_addition() {
    let before = i64_operands(&[4, -9]);
    let run = i64_operands(&[i64::MAX, 100, -50]);
    let after = i64_operands(&[i64::MIN, 1]);
    let stored = encode_i64(1000);
    let (whole, collapsed) = collapse(MergeOperator::I64Add, &before, &run, &after);
    let expected = merged(MergeOperator::I64Add, Some(&stored), &whole);
    assert_eq!(merged(MergeOperator::I64Add, Some(&stored), &collapsed), expected);
    assert_eq!(decode_i64(&expected), 1000 + 4 - 9 + 100 - 50 + 1 - 1);

    let before = u64_operands(&[4, 9]);
    let run = u64_operands(&[u64::MAX, 100]);
    let after = u64_operands(&[1]);
    let stored = encode_u64(1000);
    let (whole, collapsed) = collapse(MergeOperator::U64Add, &before, &run, &after);
    let expected = merged(MergeOperator::U64Add, Some(&stored), &whole);
    assert_eq!(merged(MergeOperator::U64Add, Some(&stored), &collapsed), expected);
    assert_eq!(decode_u64(&expected), 1000 + 4 + 9 + 99 + 1);
}

#[test]
fn the_key_plays_no_part_in_a_merge() {
    let operands = i64_operands(&[1, 2]);
    assert_eq!(
        i64_add_merge(b"one", None, &operands),
        i64_add_merge(b"another", None, &operands)
    );
    let bytes = vec![b"x".to_vec()];
    assert_eq!(append_merge(b"", Some(b"a"), &bytes), append_merge(b"zz", Some(b"a"), &bytes));
}
