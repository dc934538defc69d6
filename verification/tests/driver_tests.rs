use fdtd1d::driver::{
    append_decimal, digit_text, plot_height, plot_width, progress_line, Action, Driver, Phase,
    FRAMES_PER_SECOND, GRID_SIZE,
};

#[test]
fn bench_run_reports_every_hundredth_tick() {
    let n: usize = 100000;
    let mut d = Driver::new(n, true, 60);
    assert_eq!(d.t_max(), 800000);
    assert_eq!(d.phase(), Phase::Initializing);
    let mut ticks: usize = 0;
    let mut reports: usize = 0;
    let mut last = Action::Idle;
    while d.begin_tick() {
        ticks += 1;
        assert_eq!(d.t(), ticks);
        assert_eq!(d.phase(), Phase::Running);
        let a = d.after_tick(1_000_000);
        if ticks % 100 == 0 {
            assert_eq!(a, Action::Progress { done: ticks, of: 800000 });
            reports += 1;
            last = a;
        } else {
            assert_eq!(a, Action::Idle);
        }
    }
    assert_eq!(ticks, 800000);
    assert_eq!(reports, 8000);
    assert_eq!(last, Action::Progress { done: 800000, of: 800000 });
    assert_eq!(d.phase(), Phase::Finalizing);
    assert!(!d.begin_tick());
    assert_eq!(d.t(), 800000);
}

#[test]
fn frames_are_throttled() {
    let mut d = Driver::new(10, false, 60);
    assert!(d.begin_tick());
    assert_eq!(d.after_tick(0), Action::Idle);
    assert_eq!(d.after_tick(15), Action::Idle);
    assert_eq!(d.after_tick(16), Action::Render);
    assert_eq!(d.after_tick(17), Action::Render);
    for _ in 0..99 {
        d = Driver::new(100, false, 60);
    }
    let mut steps = 0;
    while d.begin_tick() {
        steps += 1;
        assert_eq!(d.after_tick(3), Action::Idle);
    }
    assert_eq!(steps, 800);
}

#[test]
fn slow_frame_rates_wait_longer() {
    let mut d = Driver::new(1, false, 1);
    assert!(d.begin_tick());
    assert_eq!(d.after_tick(999), Action::Idle);
    assert_eq!(d.after_tick(1000), Action::Render);
    let mut fast = Driver::new(1, false, 2000);
    assert!(fast.begin_tick());
    assert_eq!(fast.after_tick(0), Action::Render);
}

#[test]
fn empty_grid_has_no_tick() {
    let mut d = Driver::new(0, true, 60);
    assert_eq!(d.t_max(), 0);
    assert!(!d.begin_tick());
    assert_eq!(d.phase(), Phase::Finalizing);
}

#[test]
fn plot_leaves_room_for_the_margin() {
    assert_eq!(plot_width(Some(80)), 68);
    assert_eq!(plot_width(Some(12)), 0);
    assert_eq!(plot_width(Some(5)), 0);
    assert_eq!(plot_width(None), 100);
    assert_eq!(plot_height(Some(24)), 9);
    assert_eq!(plot_height(Some(25)), 9);
    assert_eq!(plot_height(Some(6)), 0);
    assert_eq!(plot_height(Some(3)), 0);
    assert_eq!(plot_height(None), 20);
}

#[test]
fn progress_line_is_done_over_total() {
    assert_eq!(progress_line(100, 800000), "100/800000");
    assert_eq!(progress_line(800000, 800000), "800000/800000");
    assert_eq!(progress_line(0, 0), "0/0");
    assert_eq!(progress_line(7, 10), "7/10");
    assert_eq!(progress_line(1234567890, 9), "1234567890/9");
    assert_eq!(progress_line(usize::MAX, 1), format!("{}/{}", usize::MAX, 1));
}

#[test]
fn decimal_numerals_have_no_leading_zero() {
    let mut s = String::from("t=");
    append_decimal(&mut s, 1005);
    assert_eq!(s, "t=1005");
    for n in [0usize, 9, 10, 99, 100, 101, 65535, 4294967295] {
        let mut t = String::new();
        append_decimal(&mut t, n);
        assert_eq!(t, format!("{}", n));
    }
    for d in 0..10usize {
        assert_eq!(digit_text(d), format!("{}", d));
    }
}

#[test]
fn standard_run_has_eight_steps_a_sample() {
    let d = Driver::new(GRID_SIZE, false, FRAMES_PER_SECOND);
    assert_eq!(d.t_max(), 800000);
    assert_eq!(d.t(), 0);
}
