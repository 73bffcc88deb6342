use pvr_core::demix::{
    build_padded_mixture, extract_chunk, plan_demix, zero_low_bins, DemixParams, LOW_BIN_NOTCH,
};
use pvr_core::stft::{istft_length, ola_span, spectrum_column, Stft};
use pvr_core::window::{hann_periodic_from_half, hann_symmetric_from_half};
use realfft::num_complex::Complex;
use realfft::RealFftPlanner;

fn hann_periodic(length: usize) -> Vec<f64> {
    let scaling = std::f64::consts::PI * 2.0 / length as f64;
    let half: Vec<f64> = (1..length / 2 + 1)
        .map(|i| 0.5 - 0.5 * (scaling * i as f64).cos())
        .collect();
    hann_periodic_from_half(0.0, &half, length)
}

fn hann_symmetric(length: usize) -> Vec<f64> {
    if length == 0 {
        return Vec::new();
    }
    if length == 1 {
        return hann_symmetric_from_half(&vec![1.0], 1);
    }
    let scaling = std::f64::consts::PI * 2.0 / (length - 1) as f64;
    let half: Vec<f64> = (0..(length + 1) / 2)
        .map(|i| 0.5 - 0.5 * (scaling * i as f64).cos())
        .collect();
    hann_symmetric_from_half(&half, length)
}

fn forward(rows: &Vec<Vec<f64>>, n_fft: usize, hop: usize, dim_f: usize) -> Vec<Vec<Vec<f64>>> {
    let stft = Stft::new(n_fft, hop, dim_f);
    let window = hann_periodic(n_fft);
    let mut planner = RealFftPlanner::<f64>::new();
    let fft = planner.plan_fft_forward(n_fft);
    let mut re_rows = Vec::new();
    let mut im_rows = Vec::new();
    for row in rows {
        let frames = stft.frames(row);
        let mut re_spectra: Vec<Vec<f64>> = Vec::new();
        let mut im_spectra: Vec<Vec<f64>> = Vec::new();
        for frame in &frames {
            let mut buf: Vec<f64> = frame.iter().zip(window.iter()).map(|(a, b)| a * b).collect();
            let mut out = fft.make_output_vec();
            fft.process(&mut buf, &mut out).expect("forward fft");
            re_spectra.push(out.iter().map(|c| c.re).collect());
            im_spectra.push(out.iter().map(|c| c.im).collect());
        }
        re_rows.push(re_spectra);
        im_rows.push(im_spectra);
    }
    stft.assemble(&re_rows, &im_rows)
}

fn inverse(planes: &Vec<Vec<Vec<f64>>>, n_fft: usize, hop: usize) -> Vec<Vec<f64>> {
    let bins_full = n_fft / 2 + 1;
    let frames = planes[0][0].len();
    let length = istft_length(frames, hop);
    let window = hann_periodic(n_fft);
    let mut planner = RealFftPlanner::<f64>::new();
    let fft = planner.plan_fft_inverse(n_fft);
    let mut rows = Vec::new();
    for pair in 0..planes.len() / 2 {
        let re_plane = &planes[2 * pair];
        let im_plane = &planes[2 * pair + 1];
        let mut res = vec![0.0f64; length];
        let mut divider = vec![0.0f64; length];
        for f in 0..frames {
            let (re, im) = spectrum_column(re_plane, im_plane, f, bins_full, 0.0);
            let mut cur: Vec<Complex<f64>> = re
                .iter()
                .zip(im.iter())
                .map(|(&a, &b)| Complex::new(a, b))
                .collect();
            let mut frame = fft.make_output_vec();
            fft.process(&mut cur, &mut frame).expect("inverse fft");
            let center = f * hop;
            let (left, right) = ola_span(center, n_fft, length);
            for i in left..right {
                let pos = center + i - n_fft / 2;
                res[pos] += frame[i] * window[i] / n_fft as f64;
                divider[pos] += window[i] * window[i];
            }
        }
        rows.push(
            res.iter()
                .zip(divider.iter())
                .map(|(&a, &b)| a / b)
                .collect::<Vec<f64>>(),
        );
    }
    rows
}

/// The full separation loop over a two-channel mixture, with the model
/// replaced by a caller-supplied spectrogram transformation.
fn demix_with(
    mix: &Vec<Vec<f64>>,
    n_fft: usize,
    segment_size: usize,
    dim_f: usize,
    compensate: f64,
    predict: &dyn Fn(Vec<Vec<Vec<f64>>>) -> Vec<Vec<Vec<f64>>>,
) -> Vec<Vec<f64>> {
    let p = DemixParams::new(n_fft, segment_size);
    assert!(p.check());
    let length = mix[0].len();
    assert!(p.fits(length));
    let plan = plan_demix(&p, length);
    let padded = build_padded_mixture(mix, length, plan.trim, plan.pad, 0.0);
    let channels = mix.len();
    let mut result = vec![vec![0.0f64; plan.new_len]; channels];
    let mut divider = vec![vec![0.0f64; plan.new_len]; channels];
    for ch in plan.chunks.iter() {
        let actual = ch.end - ch.start;
        let chunk = extract_chunk(&padded, ch.start, ch.end, plan.chunk_size, 0.0);
        let planes = forward(&chunk, n_fft, 1024, dim_f);
        let notched = zero_low_bins(&planes, LOW_BIN_NOTCH, 0.0);
        let predicted = predict(notched);
        let waves = inverse(&predicted, n_fft, 1024);
        let window = hann_symmetric(actual);
        for c in 0..channels {
            for i in 0..actual {
                result[c][ch.start + i] += waves[c][i] * window[i];
                divider[c][ch.start + i] += window[i];
            }
        }
    }
    let tar: Vec<Vec<f64>> = result
        .iter()
        .zip(divider.iter())
        .map(|(r, d)| r.iter().zip(d.iter()).map(|(&a, &b)| a / b).collect())
        .collect();
    let out = pvr_core::demix::trim_output(&tar, plan.new_len, plan.trim, length);
    out.iter()
        .map(|row| row.iter().map(|x| x * compensate).collect())
        .collect()
}

#[test]
fn pad_is_never_zero_and_schedule_reaches_end() {
    let p = DemixParams::new(2048, 4);
    assert!(p.check());
    assert_eq!(p.trim(), 1024);
    assert_eq!(p.chunk_size(), 3072);
    assert_eq!(p.gen_size(), 1024);
    assert_eq!(p.step(), 1024);
    for length in 1..300usize {
        let plan = plan_demix(&p, length);
        assert!(plan.pad >= 1, "length {length}");
        assert!(plan.pad > plan.trim);
        assert_eq!(plan.new_len, plan.trim + length + plan.pad);
        let last = plan.chunks.last().unwrap();
        assert!(last.start < plan.new_len, "length {length}");
        assert_eq!(last.end, plan.new_len);
    }
    // A mixture that already ends on a generation boundary still gets a
    // full extra margin.
    assert_eq!(p.compute_pad(1024), 2048);
    assert_eq!(p.compute_pad(50), 1998);
}

#[test]
fn divider_strictly_positive_in_valid_region() {
    let p = DemixParams::new(2048, 4);
    let length = 50usize;
    let plan = plan_demix(&p, length);
    let mut divider = vec![0.0f64; plan.new_len];
    for ch in plan.chunks.iter() {
        let window = hann_symmetric(ch.end - ch.start);
        for i in 0..window.len() {
            divider[ch.start + i] += window[i];
        }
    }
    for idx in plan.trim..plan.trim + length {
        assert!(divider[idx] > 0.0, "idx {idx}");
        // The structural fact behind it: some chunk holds this sample
        // strictly inside, away from the taper's two zero endpoints.
        assert!(plan
            .chunks
            .iter()
            .any(|c| c.start < idx && idx + 1 < c.end));
    }
}

#[test]
fn padded_mixture_layout() {
    let mix: Vec<Vec<f64>> = vec![vec![1.0, 2.0, 3.0], vec![4.0, 5.0, 6.0]];
    let padded = build_padded_mixture(&mix, 3, 2, 4, 0.0);
    assert_eq!(padded.len(), 2);
    assert_eq!(padded[0], vec![0.0, 0.0, 1.0, 2.0, 3.0, 0.0, 0.0, 0.0, 0.0]);
    assert_eq!(padded[1], vec![0.0, 0.0, 4.0, 5.0, 6.0, 0.0, 0.0, 0.0, 0.0]);
}

#[test]
fn short_final_chunk_is_zero_padded() {
    let padded: Vec<Vec<f64>> = vec![vec![1.0, 2.0, 3.0, 4.0, 5.0, 6.0]];
    let chunk = extract_chunk(&padded, 4, 6, 4, 0.0);
    assert_eq!(chunk[0], vec![5.0, 6.0, 0.0, 0.0]);
}

#[test]
fn low_bin_notch_blanks_three_rows() {
    let rows: Vec<Vec<f64>> = vec![(0..40).map(|i| (i as f64 * 0.19).sin()).collect()];
    let planes = forward(&rows, 20, 5, 3072);
    let notched = zero_low_bins(&planes, LOW_BIN_NOTCH, 0.0);
    for p in 0..planes.len() {
        for b in 0..planes[p].len() {
            for f in 0..planes[p][b].len() {
                if b < 3 {
                    assert_eq!(notched[p][b][f], 0.0);
                } else {
                    assert_eq!(notched[p][b][f].to_bits(), planes[p][b][f].to_bits());
                }
            }
        }
    }
}

#[test]
fn silence_in_silence_out() {
    // Every stage is linear and the identity predictor maps zero to
    // zero, so an all-zero mixture separates into an all-zero stem.
    let mix: Vec<Vec<f64>> = vec![vec![0.0; 50], vec![0.0; 50]];
    let out = demix_with(&mix, 2048, 4, 600, 1.043, &|p| p);
    assert_eq!(out.len(), 2);
    for row in &out {
        assert_eq!(row.len(), 50);
        for &v in row {
            assert!(v == 0.0, "expected silence, got {v}");
        }
    }
}

#[test]
fn compensate_scales_linearly() {
    let mix: Vec<Vec<f64>> = (0..2)
        .map(|c| {
            (0..50)
                .map(|i| ((i * 13 + c * 7) % 17) as f64 * 0.125 - 1.0)
                .collect()
        })
        .collect();
    let scaled = demix_with(&mix, 2048, 4, 600, 1.043, &|p| p);
    let unit = demix_with(&mix, 2048, 4, 600, 1.0, &|p| p);
    for c in 0..2 {
        for i in 0..50 {
            let expected = unit[c][i] * 1.043;
            assert_eq!(scaled[c][i].to_bits(), expected.to_bits(), "c={c} i={i}");
        }
    }
}

#[test]
fn demix_with_identity_keeps_shape_and_stays_finite() {
    let mix: Vec<Vec<f64>> = (0..2)
        .map(|c| (0..80).map(|i| (i as f64 * 0.11 + c as f64).sin()).collect())
        .collect();
    let out = demix_with(&mix, 2048, 4, 1025, 1.0, &|p| p);
    assert_eq!(out.len(), 2);
    for row in &out {
        assert_eq!(row.len(), 80);
        for &v in row {
            assert!(v.is_finite());
        }
    }
}
