use player_core::fft_player::{FFTPlayer, FFT_BUFFER_CAP, FFT_WINDOW};

#[test]
fn read_without_a_full_window_returns_nothing() {
    let mut fft = FFTPlayer::new();
    assert!(!fft.has_data());
    assert!(fft.read().is_none());
    fft.push_data(&vec![7i16; FFT_WINDOW - 1]);
    assert!(!fft.has_data());
    assert!(fft.read().is_none());
}

#[test]
fn read_drains_the_oldest_window() {
    let mut fft = FFTPlayer::new();
    let samples: Vec<i16> = (0..(FFT_WINDOW as i32 + 10)).map(|i| i as i16).collect();
    fft.push_data(&samples);
    assert!(fft.has_data());
    let window = fft.read().expect("a full window is buffered");
    assert_eq!(window.len(), FFT_WINDOW);
    assert_eq!(window[0], 0);
    assert_eq!(window[FFT_WINDOW - 1], (FFT_WINDOW - 1) as i16);
    // Only the 10 newest samples remain: not enough for another window.
    assert!(!fft.has_data());
    assert!(fft.read().is_none());
}

#[test]
fn two_windows_come_out_in_order() {
    let mut fft = FFTPlayer::new();
    fft.push_data(&vec![1i16; FFT_WINDOW]);
    fft.push_data(&vec![2i16; FFT_WINDOW]);
    let first = fft.read().expect("first window");
    let second = fft.read().expect("second window");
    assert!(first.iter().all(|&s| s == 1));
    assert!(second.iter().all(|&s| s == 2));
}

#[test]
fn overflow_drops_the_oldest_samples() {
    let mut fft = FFTPlayer::new();
    let old: Vec<i16> = vec![11i16; FFT_BUFFER_CAP];
    fft.push_data(&old);
    fft.push_data(&vec![22i16; 10]);
    // The buffer stayed at its bound; the oldest 10 samples fell out, so
    // after draining all full windows the newest samples are still there.
    let mut last = None;
    while let Some(w) = fft.read() {
        last = Some(w);
    }
    let last = last.expect("at least one window");
    assert_eq!(last[FFT_WINDOW - 1], 22);
}
