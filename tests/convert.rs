use poptranscribe::convert::{downmix_to_mono_i16, resample, u16_buffer_to_i16, u16_to_i16};

#[test]
fn downmix_mono_is_identity() {
    let s: Vec<i16> = vec![1, -2, 3, i16::MAX, i16::MIN];
    assert_eq!(downmix_to_mono_i16(&s, 1), s);
    let empty: Vec<i16> = vec![];
    assert_eq!(downmix_to_mono_i16(&empty, 1), empty);
}

#[test]
fn downmix_stereo_averages_frames() {
    let s: Vec<i16> = vec![1000, 500, -2000, -1000];
    assert_eq!(downmix_to_mono_i16(&s, 2), vec![750, -1500]);
}

#[test]
fn downmix_truncates_toward_zero() {
    let s: Vec<i16> = vec![1, 2, -1, -2];
    assert_eq!(downmix_to_mono_i16(&s, 2), vec![1, -1]);
    let s3: Vec<i16> = vec![i16::MAX, i16::MAX, i16::MAX, i16::MIN, i16::MIN, i16::MIN];
    assert_eq!(downmix_to_mono_i16(&s3, 3), vec![i16::MAX, i16::MIN]);
}

#[test]
fn downmix_drops_trailing_partial_frame() {
    let s: Vec<i16> = vec![10, 20, 30, 40, 50];
    assert_eq!(downmix_to_mono_i16(&s, 2), vec![15, 35]);
    assert_eq!(downmix_to_mono_i16(&s, 6), Vec::<i16>::new());
    assert_eq!(downmix_to_mono_i16(&s, 0), Vec::<i16>::new());
}

#[test]
fn u16_samples_are_recentred() {
    assert_eq!(u16_to_i16(0), i16::MIN);
    assert_eq!(u16_to_i16(32768), 0);
    assert_eq!(u16_to_i16(65535), i16::MAX);
    assert_eq!(u16_buffer_to_i16(&vec![0, 32769, 65535]), vec![-32768, 1, 32767]);
}

#[test]
fn resample_equal_rates_is_identity() {
    let s: Vec<i16> = vec![5, -7, 9];
    assert_eq!(resample(&s, 44100, 44100), s);
    assert_eq!(resample(&s, 0, 0), s);
}

#[test]
fn resample_empty_is_empty() {
    let s: Vec<i16> = vec![];
    assert_eq!(resample(&s, 48000, 16000), s);
    assert_eq!(resample(&s, 8000, 16000), s);
}

#[test]
fn resample_upsamples_by_interpolation() {
    let s: Vec<i16> = vec![0, 100];
    assert_eq!(resample(&s, 8000, 16000), vec![0, 50, 100, 100]);
}

#[test]
fn resample_downsamples() {
    let s: Vec<i16> = vec![0, 10, 20, 30];
    assert_eq!(resample(&s, 32000, 16000), vec![0, 20]);
    let t: Vec<i16> = vec![0, 10, 20, 30, 40];
    assert_eq!(resample(&t, 48000, 16000), vec![0, 30]);
}

#[test]
fn resample_rounds_halves_away_from_zero() {
    assert_eq!(resample(&vec![0, 1], 16000, 32000), vec![0, 1, 1, 1]);
    assert_eq!(resample(&vec![0, -1], 16000, 32000), vec![0, -1, -1, -1]);
}

#[test]
fn resample_with_zero_rate_is_empty() {
    assert_eq!(resample(&vec![1, 2, 3], 0, 16000), Vec::<i16>::new());
    assert_eq!(resample(&vec![1, 2, 3], 16000, 0), Vec::<i16>::new());
}
