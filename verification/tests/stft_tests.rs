use pvr_core::stft::{extract_frame, istft_length, ola_span, spectrum_column, Stft};
use pvr_core::window::hann_periodic_from_half;
use realfft::num_complex::Complex;
use realfft::RealFftPlanner;

fn hann_periodic(length: usize) -> Vec<f64> {
    let scaling = std::f64::consts::PI * 2.0 / length as f64;
    let half: Vec<f64> = (1..length / 2 + 1)
        .map(|i| 0.5 - 0.5 * (scaling * i as f64).cos())
        .collect();
    hann_periodic_from_half(0.0, &half, length)
}

/// Forward transform of a batch of rows: frames cut by the library,
/// windowed and transformed here, planes laid out by the library again.
fn forward(rows: &Vec<Vec<f64>>, n_fft: usize, hop: usize, dim_f: usize) -> Vec<Vec<Vec<f64>>> {
    let stft = Stft::new(n_fft, hop, dim_f);
    let window = hann_periodic(n_fft);
    let mut planner = RealFftPlanner::<f64>::new();
    let fft = planner.plan_fft_forward(n_fft);
    let mut re_rows = Vec::new();
    let mut im_rows = Vec::new();
    for row in rows {
        let frames = stft.frames(row);
        let mut re_spectra: Vec<Vec<f64>> = Vec::new();
        let mut im_spectra: Vec<Vec<f64>> = Vec::new();
        for frame in &frames {
            let mut buf: Vec<f64> = frame.iter().zip(window.iter()).map(|(a, b)| a * b).collect();
            let mut out = fft.make_output_vec();
            fft.process(&mut buf, &mut out).expect("forward fft");
            re_spectra.push(out.iter().map(|c| c.re).collect());
            im_spectra.push(out.iter().map(|c| c.im).collect());
        }
        re_rows.push(re_spectra);
        im_rows.push(im_spectra);
    }
    stft.assemble(&re_rows, &im_rows)
}

/// Inverse transform: spectrum columns rebuilt by the library (zero-padded
/// rows, real-valued first and last bins), transformed and accumulated
/// here over the spans the library computes.
fn inverse(planes: &Vec<Vec<Vec<f64>>>, n_fft: usize, hop: usize) -> Vec<Vec<f64>> {
    let bins_full = n_fft / 2 + 1;
    let frames = planes[0][0].len();
    let length = istft_length(frames, hop);
    let window = hann_periodic(n_fft);
    let mut planner = RealFftPlanner::<f64>::new();
    let fft = planner.plan_fft_inverse(n_fft);
    let mut rows = Vec::new();
    for pair in 0..planes.len() / 2 {
        let re_plane = &planes[2 * pair];
        let im_plane = &planes[2 * pair + 1];
        let mut res = vec![0.0f64; length];
        let mut divider = vec![0.0f64; length];
        for f in 0..frames {
            let (re, im) = spectrum_column(re_plane, im_plane, f, bins_full, 0.0);
            let mut cur: Vec<Complex<f64>> = re
                .iter()
                .zip(im.iter())
                .map(|(&a, &b)| Complex::new(a, b))
                .collect();
            let mut frame = fft.make_output_vec();
            fft.process(&mut cur, &mut frame).expect("inverse fft");
            let center = f * hop;
            let (left, right) = ola_span(center, n_fft, length);
            for i in left..right {
                let pos = center + i - n_fft / 2;
                res[pos] += frame[i] * window[i] / n_fft as f64;
                divider[pos] += window[i] * window[i];
            }
        }
        rows.push(
            res.iter()
                .zip(divider.iter())
                .map(|(&a, &b)| a / b)
                .collect::<Vec<f64>>(),
        );
    }
    rows
}

#[test]
fn frame_reflects_left_edge() {
    let signal: Vec<f64> = vec![1.0, 2.0, 3.0, 4.0, 5.0];
    // Frame centred at 0 spans virtual positions -2..2, and the negative
    // ones mirror around sample 0 without repeating it.
    let frame = extract_frame(&signal, 0, 4);
    assert_eq!(frame, vec![3.0, 2.0, 1.0, 2.0]);
}

#[test]
fn frame_reflects_right_edge() {
    let signal: Vec<f64> = vec![1.0, 2.0, 3.0, 4.0, 5.0];
    // Frame centred at the signal length spans virtual positions 3..7;
    // 5 mirrors to 3 and 6 mirrors to 2.
    let frame = extract_frame(&signal, 5, 4);
    assert_eq!(frame, vec![4.0, 5.0, 4.0, 3.0]);
}

#[test]
fn frame_count_matches_hop_grid() {
    let stft = Stft::new(20, 5, 3072);
    assert_eq!(stft.frame_count(30), 7);
    assert_eq!(stft.frame_count(29), 6);
    let signal: Vec<f64> = (0..30).map(|i| i as f64).collect();
    assert_eq!(stft.frames(&signal).len(), 7);
}

#[test]
fn forward_is_deterministic_with_expected_shape() {
    // A fixed 30-sample two-channel signal through `n_fft=20, hop=5`:
    // 11 bins, 7 frames, and two planes (real, imaginary) per channel.
    let rows: Vec<Vec<f64>> = (0..2)
        .map(|c| {
            (0..30)
                .map(|i| ((i * 7 + c * 3) % 13) as f64 * 0.25 - 1.5)
                .collect()
        })
        .collect();
    let a = forward(&rows, 20, 5, 3072);
    let b = forward(&rows, 20, 5, 3072);
    assert_eq!(a.len(), 4);
    for plane in &a {
        assert_eq!(plane.len(), 11);
        for row in plane {
            assert_eq!(row.len(), 7);
        }
    }
    for (pa, pb) in a.iter().zip(b.iter()) {
        for (ra, rb) in pa.iter().zip(pb.iter()) {
            for (va, vb) in ra.iter().zip(rb.iter()) {
                assert_eq!(va.to_bits(), vb.to_bits());
            }
        }
    }
    // Spot values computed independently with a plain direct DFT of the
    // reflected, windowed frames.
    assert!((a[0][4][3] - 0.7532289237889355).abs() < 1e-9);
    assert!((a[1][4][3] - (-1.203145733136601)).abs() < 1e-9);
    assert!((a[2][10][0] - (-6.690303599843344)).abs() < 1e-9);
    assert!(a[3][10][0].abs() < 1e-9);
    assert!((a[0][1][6] - 2.7973180186911755).abs() < 1e-9);
    assert!((a[1][1][6] - 1.233823417132879).abs() < 1e-9);
}

#[test]
fn forward_dc_bin_is_windowed_sum() {
    // The first bin of the transform is the plain sum of the windowed
    // frame; checks the spectrogram layout against a direct computation.
    let rows: Vec<Vec<f64>> = vec![(0..30).map(|i| (i as f64 * 0.37).sin()).collect()];
    let n_fft = 20;
    let planes = forward(&rows, n_fft, 5, 3072);
    let stft = Stft::new(n_fft, 5, 3072);
    let frames = stft.frames(&rows[0]);
    let window = hann_periodic(n_fft);
    for (f, frame) in frames.iter().enumerate() {
        let direct: f64 = frame.iter().zip(window.iter()).map(|(a, b)| a * b).sum();
        assert!((planes[0][0][f] - direct).abs() < 1e-9, "frame {f}");
        // The imaginary part of the first bin is zero for real input.
        assert_eq!(planes[1][0][f], 0.0);
    }
}

#[test]
fn forward_truncates_high_bins() {
    let rows: Vec<Vec<f64>> = vec![(0..30).map(|i| (i as f64 * 0.11).cos()).collect()];
    let full = forward(&rows, 20, 5, 3072);
    let cut = forward(&rows, 20, 5, 6);
    assert_eq!(cut.len(), 2);
    for plane in &cut {
        assert_eq!(plane.len(), 6);
    }
    // The kept rows are the lowest-frequency ones, untouched.
    for p in 0..2 {
        for b in 0..6 {
            for f in 0..7 {
                assert_eq!(cut[p][b][f].to_bits(), full[p][b][f].to_bits());
            }
        }
    }
}

#[test]
fn round_trip_reconstructs_central_region() {
    // Signal length a multiple of the hop, even FFT size: the inverse
    // reconstructs the forward's input away from the reflected edges.
    let n_fft = 16;
    let hop = 4;
    let length = 64;
    let rows: Vec<Vec<f64>> = (0..2)
        .map(|c| {
            (0..length)
                .map(|i| (i as f64 * 0.21 + c as f64).sin() + 0.3 * (i as f64 * 0.07).cos())
                .collect()
        })
        .collect();
    let planes = forward(&rows, n_fft, hop, 4096);
    let back = inverse(&planes, n_fft, hop);
    assert_eq!(back.len(), 2);
    assert_eq!(back[0].len(), length);
    for c in 0..2 {
        for i in n_fft..length - n_fft {
            assert!(
                (back[c][i] - rows[c][i]).abs() < 1e-5,
                "c={c} i={i} got {} want {}",
                back[c][i],
                rows[c][i]
            );
        }
    }
}

#[test]
fn inverse_restores_truncated_rows_as_zero() {
    // A forward run truncated to 6 rows still inverts: the library
    // rebuilds the missing high-frequency rows as zeros.
    let n_fft = 16;
    let hop = 4;
    let length = 64;
    let rows: Vec<Vec<f64>> = vec![(0..length).map(|i| (i as f64 * 0.13).sin()).collect()];
    let planes = forward(&rows, n_fft, hop, 6);
    assert_eq!(planes[0].len(), 6);
    let back = inverse(&planes, n_fft, hop);
    assert_eq!(back[0].len(), length);
    for v in &back[0] {
        assert!(v.is_finite());
    }
}

#[test]
fn ola_spans_cover_output_exactly() {
    let n_fft = 16;
    let hop = 4;
    let frames = 17;
    let length = istft_length(frames, hop);
    assert_eq!(length, 64);
    let mut covered = vec![0usize; length];
    for f in 0..frames {
        let center = f * hop;
        let (left, right) = ola_span(center, n_fft, length);
        assert!(left <= right && right <= n_fft);
        for i in left..right {
            let pos = center + i - n_fft / 2;
            assert!(pos < length);
            covered[pos] += 1;
        }
    }
    for (pos, &n) in covered.iter().enumerate() {
        assert!(n > 0, "position {pos} uncovered");
    }
}
