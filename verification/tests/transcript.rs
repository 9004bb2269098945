use desnark::field::Fe;
use desnark::transcript::{serialize_elements, usize_to_bytes, IOPTranscript, TranscriptError};

#[test]
fn challenge_on_fresh_transcript_is_refused() {
    let mut t = IOPTranscript::new(b"test");
    assert_eq!(
        t.get_and_append_challenge(b"c"),
        Err(TranscriptError::InvalidTranscript)
    );
    assert_eq!(
        t.get_and_append_challenge_vectors(b"c", 2),
        Err(TranscriptError::InvalidTranscript)
    );
    assert_eq!(t.get_and_append_challenge_vectors(b"c", 0), Ok(vec![]));
}

#[test]
fn same_messages_give_same_challenges() {
    let mut a = IOPTranscript::new(b"test");
    let mut b = IOPTranscript::new(b"test");
    a.append_message(b"m", b"hello");
    b.append_message(b"m", b"hello");
    let ca = a.get_and_append_challenge(b"c").unwrap();
    let cb = b.get_and_append_challenge(b"c").unwrap();
    assert_eq!(ca, cb);
    let va = a.get_and_append_challenge_vectors(b"v", 3).unwrap();
    let vb = b.get_and_append_challenge_vectors(b"v", 3).unwrap();
    assert_eq!(va.len(), 3);
    assert_eq!(va, vb);
    assert_ne!(va[0], va[1]);
}

#[test]
fn different_messages_give_different_challenges() {
    let mut a = IOPTranscript::new(b"test");
    let mut b = IOPTranscript::new(b"test");
    a.append_message(b"m", b"hello");
    b.append_message(b"m", b"hellp");
    assert_ne!(
        a.get_and_append_challenge(b"c").unwrap(),
        b.get_and_append_challenge(b"c").unwrap()
    );
    let mut c = IOPTranscript::new(b"test");
    let mut d = IOPTranscript::new(b"test");
    c.append_field_element(b"x", &Fe::from_u64(1));
    d.append_field_element(b"x", &Fe::from_u64(2));
    assert_ne!(
        c.get_and_append_challenge(b"c").unwrap(),
        d.get_and_append_challenge(b"c").unwrap()
    );
}

#[test]
fn a_vector_of_challenges_is_one_challenge_after_another() {
    let mut a = IOPTranscript::new(b"test");
    let mut b = IOPTranscript::new(b"test");
    a.append_message(b"m", b"x");
    b.append_message(b"m", b"x");
    let v = a.get_and_append_challenge_vectors(b"c", 2).unwrap();
    let c0 = b.get_and_append_challenge(b"c").unwrap();
    let c1 = b.get_and_append_challenge(b"c").unwrap();
    assert_eq!(v, vec![c0, c1]);
}

#[test]
fn encodings_are_length_then_elements() {
    assert_eq!(usize_to_bytes(258), vec![2, 1, 0, 0, 0, 0, 0, 0]);
    let bytes = serialize_elements(&vec![Fe::from_u64(1), Fe::from_u64(256)]);
    assert_eq!(bytes.len(), 8 + 64);
    assert_eq!(&bytes[0..8], &[2, 0, 0, 0, 0, 0, 0, 0]);
    assert_eq!(bytes[8], 1);
    assert_eq!(bytes[8 + 32], 0);
    assert_eq!(bytes[8 + 33], 1);
}

#[test]
fn usize_bytes_are_little_endian_over_all_eight() {
    assert_eq!(usize_to_bytes(0x0102_0304_0506_0708), vec![8, 7, 6, 5, 4, 3, 2, 1]);
    assert_eq!(usize_to_bytes(0), vec![0; 8]);
    assert_eq!(usize_to_bytes(usize::MAX), vec![255; 8]);
}
