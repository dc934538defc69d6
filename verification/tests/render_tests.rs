use fdtd1d::render::{
    append_repeated, clamp_level, glyph_at, glyph_text, render_bound, render_lines, render_row,
    quantize, render_frame, render_waveform, zero_row, Glyph,
};
use fdtd1d::sample::sample_columns;

const BLUE: &str = "\x1b[34m";

fn raw_level(val: f64, min_val: f64, max_val: f64, full_height: usize) -> usize {
    ((val - min_val) / (max_val - min_val + 1e-12) * (full_height - 1) as f64).round().clamp(
        0.0,
        (full_height - 1) as f64,
    ) as usize
}

fn expected_frame(data: &[f64], width: usize, height: usize, label: &str, color: &str) -> String {
    let len = data.len();
    let full_height = height * 2;
    let min_val = data.iter().copied().fold(f64::INFINITY, f64::min);
    let max_val = data.iter().copied().fold(f64::NEG_INFINITY, f64::max);
    let zero = if (max_val - min_val).abs() < 1e-12 {
        full_height / 2
    } else {
        ((0.0 - min_val) / (max_val - min_val) * (full_height - 1) as f64)
            .round()
            .clamp(0.0, (full_height - 1) as f64) as usize
    };
    let sampled: Vec<f64> = (0..width)
        .map(|col| {
            let idx_f = col as f64 * (len - 1) as f64 / (width - 1).max(1) as f64;
            data[(idx_f.round() as usize).min(len - 1)]
        })
        .collect();
    let mut buffer = String::new();
    buffer.push_str(&format!("  {:>6.2} +{}\n", max_val, "─".repeat(width.saturating_sub(9))));
    for row in (0..height).rev() {
        let upper = row * 2 + 1;
        let lower = row * 2;
        if upper == zero || lower == zero {
            buffer.push_str(&format!("{:<6} │ ", label));
        } else {
            buffer.push_str("       │ ");
        }
        for &val in &sampled {
            let scaled = raw_level(val, min_val, max_val, full_height);
            let ch = match (scaled == upper, scaled == lower) {
                (true, true) => "█",
                (true, false) => "▀",
                (false, true) => "▄",
                _ => {
                    if upper == zero || lower == zero {
                        "\x1b[37m─\x1b[0m"
                    } else {
                        " "
                    }
                }
            };
            buffer.push_str(&format!("{}{}\x1b[0m", color, ch));
        }
        buffer.push_str("\x1b[K\n");
    }
    buffer.push_str(&format!("  {:>6.2} +{}\n", min_val, "─".repeat(width.saturating_sub(9))));
    format!("\x1b[?25l{}\x1b[?25h", buffer)
}

fn rendered(data: &[f64], width: usize, height: usize, label: &str, color: &str) -> String {
    let data = data.to_vec();
    let min_val = data.iter().copied().fold(f64::INFINITY, f64::min);
    let max_val = data.iter().copied().fold(f64::NEG_INFINITY, f64::max);
    let full_height = height * 2;
    let zero_level = if (max_val - min_val).abs() < 1e-12 {
        None
    } else {
        Some(((0.0 - min_val) / (max_val - min_val) * (full_height - 1) as f64).round() as usize)
    };
    let level_of = |v: f64| {
        ((v - min_val) / (max_val - min_val + 1e-12) * (full_height - 1) as f64).round() as usize
    };
    render_waveform(
        &data,
        width,
        height,
        label,
        color,
        &level_of,
        zero_level,
        &format!("{:>6.2}", max_val),
        &format!("{:>6.2}", min_val),
    )
}

#[test]
fn constant_data_gives_height_plus_two_lines() {
    for len in [1usize, 2, 7] {
        for width in [1usize, 3, 20] {
            for height in [1usize, 2, 5] {
                let data = vec![2.5f64; len];
                let levels: Vec<usize> = sample_columns(&data, width)
                    .iter()
                    .map(|v| raw_level(*v, 2.5, 2.5, 2 * height))
                    .collect();
                let lines = render_lines(&levels, height, None, "Ex", BLUE, "  2.50", "  2.50");
                assert_eq!(lines.len(), height + 2);
                let text = rendered(&data, width, height, "Ex", BLUE);
                assert_eq!(text.matches('\n').count(), height + 2);
                assert_eq!(text, expected_frame(&data, width, height, "Ex", BLUE));
            }
        }
    }
}

#[test]
fn frame_matches_the_float_pipeline() {
    let wave: Vec<f64> = (0..200).map(|i| ((i as f64) * 0.07).sin() * 3.0).collect();
    for (width, height) in [(1usize, 1usize), (10, 3), (40, 8), (100, 20), (0, 4)] {
        assert_eq!(
            rendered(&wave, width, height, "Hy", "\x1b[31m"),
            expected_frame(&wave, width, height, "Hy", "\x1b[31m")
        );
    }
    let positive: Vec<f64> = (0..50).map(|i| 1.0 + i as f64).collect();
    assert_eq!(rendered(&positive, 30, 6, "Ex", BLUE), expected_frame(&positive, 30, 6, "Ex", BLUE));
    let negative: Vec<f64> = (0..50).map(|i| -1.0 - i as f64).collect();
    assert_eq!(rendered(&negative, 30, 6, "Ex", BLUE), expected_frame(&negative, 30, 6, "Ex", BLUE));
}

#[test]
fn long_labels_are_not_cut() {
    let data = vec![-1.0, 0.0, 1.0];
    assert_eq!(
        rendered(&data, 5, 3, "Electric", BLUE),
        expected_frame(&data, 5, 3, "Electric", BLUE)
    );
    assert_eq!(rendered(&data, 5, 3, "", BLUE), expected_frame(&data, 5, 3, "", BLUE));
}

#[test]
fn levels_are_held_under_the_top() {
    assert_eq!(clamp_level(0, 1), 0);
    assert_eq!(clamp_level(1, 1), 1);
    assert_eq!(clamp_level(2, 1), 1);
    assert_eq!(clamp_level(usize::MAX, 20), 39);
    assert_eq!(clamp_level(17, 20), 17);
}

#[test]
fn baseline_defaults_to_the_middle() {
    assert_eq!(zero_row(None, 20), 20);
    assert_eq!(zero_row(None, 1), 1);
    assert_eq!(zero_row(Some(0), 20), 0);
    assert_eq!(zero_row(Some(13), 20), 13);
    assert_eq!(zero_row(Some(400), 20), 39);
}

#[test]
fn glyph_follows_the_half_row() {
    assert_eq!(glyph_at(5, 2, 0), Glyph::Upper);
    assert_eq!(glyph_at(4, 2, 0), Glyph::Lower);
    assert_eq!(glyph_at(3, 2, 0), Glyph::Blank);
    assert_eq!(glyph_at(3, 2, 4), Glyph::Rule);
    assert_eq!(glyph_at(3, 2, 5), Glyph::Rule);
    assert_eq!(glyph_at(5, 2, 5), Glyph::Upper);
    assert_eq!(glyph_at(6, 2, 6), Glyph::Blank);
}

#[test]
fn glyphs_have_their_text() {
    assert_eq!(glyph_text(Glyph::Full), "█");
    assert_eq!(glyph_text(Glyph::Upper), "▀");
    assert_eq!(glyph_text(Glyph::Lower), "▄");
    assert_eq!(glyph_text(Glyph::Rule), "\x1b[37m─\x1b[0m");
    assert_eq!(glyph_text(Glyph::Blank), " ");
}

#[test]
fn row_text_is_exact() {
    let levels = vec![0usize, 1, 5];
    assert_eq!(
        render_row(&levels, 2, 0, 2, "Ex", BLUE),
        "       │ \x1b[34m▄\x1b[0m\x1b[34m▀\x1b[0m\x1b[34m \x1b[0m\x1b[K"
    );
    assert_eq!(
        render_row(&levels, 2, 1, 2, "Ex", BLUE),
        "Ex     │ \x1b[34m\x1b[37m─\x1b[0m\x1b[0m\x1b[34m\x1b[37m─\x1b[0m\x1b[0m\x1b[34m▀\x1b[0m\x1b[K"
    );
}

#[test]
fn bounds_carry_a_rule() {
    assert_eq!(render_bound("  1.00", 12), "    1.00 +───");
    assert_eq!(render_bound("  1.00", 9), "    1.00 +");
    assert_eq!(render_bound(" -0.50", 3), "   -0.50 +");
}

#[test]
fn repeated_text_is_appended() {
    let mut s = String::from("ab");
    append_repeated(&mut s, "xy", 3);
    assert_eq!(s, "abxyxyxy");
    append_repeated(&mut s, "q", 0);
    assert_eq!(s, "abxyxyxy");
}

#[test]
fn lines_are_header_rows_footer() {
    let levels = vec![0usize, 3, 1];
    let lines = render_lines(&levels, 2, Some(1), "Hy", "\x1b[31m", "  9.00", " -9.00");
    assert_eq!(lines.len(), 4);
    assert_eq!(lines[0], "    9.00 +");
    assert_eq!(lines[1], render_row(&levels, 2, 1, 1, "Hy", "\x1b[31m"));
    assert_eq!(lines[2], render_row(&levels, 2, 0, 1, "Hy", "\x1b[31m"));
    assert_eq!(lines[3], "   -9.00 +");
    let text = render_frame(&levels, 2, Some(1), "Hy", "\x1b[31m", "  9.00", " -9.00");
    assert_eq!(text, format!("\x1b[?25l{}\n\x1b[?25h", lines.join("\n")));
}

#[test]
fn columns_get_their_levels() {
    let cols = vec![0.0f64, 0.5, 1.0, 0.26];
    let levels = quantize(&cols, &|v: f64| (v * 10.0).round() as usize);
    assert_eq!(levels, vec![0, 5, 10, 3]);
    assert!(quantize(&Vec::<f64>::new(), &|_v: f64| 1usize).is_empty());
}

#[test]
fn waveform_is_the_frame_over_sampled_levels() {
    let data: Vec<u32> = (0..10).collect();
    let level_of = |v: u32| (v / 3) as usize;
    let text = render_waveform(&data, 4, 2, "Ex", BLUE, &level_of, Some(0), "  9.00", "  0.00");
    let levels = vec![0usize, 1, 2, 3];
    assert_eq!(text, render_frame(&levels, 2, Some(0), "Ex", BLUE, "  9.00", "  0.00"));
    assert_eq!(sample_columns(&data, 4), vec![0, 3, 6, 9]);
    let lines: Vec<&str> = text.split('\n').collect();
    assert_eq!(lines.len(), 5);
    assert_eq!(lines[0], "\x1b[?25l    9.00 +");
    assert_eq!(
        lines[1],
        "       │ \x1b[34m \x1b[0m\x1b[34m \x1b[0m\x1b[34m▄\x1b[0m\x1b[34m▀\x1b[0m\x1b[K"
    );
    assert_eq!(
        lines[2],
        "Ex     │ \x1b[34m▄\x1b[0m\x1b[34m▀\x1b[0m\x1b[34m\x1b[37m─\x1b[0m\x1b[0m\x1b[34m\x1b[37m─\x1b[0m\x1b[0m\x1b[K"
    );
    assert_eq!(lines[3], "    0.00 +");
    assert_eq!(lines[4], "\x1b[?25h");
}
