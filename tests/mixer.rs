use poptranscribe::mixer::mix_samples;

#[test]
fn test_mix_two_streams() {
    let a: Vec<i16> = vec![1000, 2000, 3000];
    let b: Vec<i16> = vec![500, 1000, 1500];
    let mixed = mix_samples(&a, &b);
    assert_eq!(mixed, vec![1500, 3000, 4500]);
}

#[test]
fn test_mix_clamps_to_i16_max() {
    let a: Vec<i16> = vec![i16::MAX];
    let b: Vec<i16> = vec![1000];
    let mixed = mix_samples(&a, &b);
    assert_eq!(mixed, vec![i16::MAX]);
}

#[test]
fn test_mix_clamps_to_i16_min() {
    let a: Vec<i16> = vec![i16::MIN];
    let b: Vec<i16> = vec![-1000];
    let mixed = mix_samples(&a, &b);
    assert_eq!(mixed, vec![i16::MIN]);
}

#[test]
fn test_mix_different_lengths() {
    let a: Vec<i16> = vec![1000, 2000, 3000];
    let b: Vec<i16> = vec![500];
    let mixed = mix_samples(&a, &b);
    assert_eq!(mixed, vec![1500, 2000, 3000]);
}

#[test]
fn test_mix_empty() {
    let a: Vec<i16> = vec![];
    let b: Vec<i16> = vec![];
    let mixed = mix_samples(&a, &b);
    let expected: Vec<i16> = vec![];
    assert_eq!(mixed, expected);
}

#[test]
fn mix_pads_first_buffer_when_shorter() {
    let a: Vec<i16> = vec![-5];
    let b: Vec<i16> = vec![10, 20, -30];
    assert_eq!(mix_samples(&a, &b), vec![5, 20, -30]);
    let padded: Vec<i16> = vec![-5, 0, 0];
    assert_eq!(mix_samples(&a, &b), mix_samples(&padded, &b));
}
