use rafters::{
    Beam, BirdsMouth, Given, InvalidInput, Rafter, RafterInput, RafterSolves, RightAngleLike,
    SolvePlan, Solved, Tail, LENGTH_LIMIT,
};

/// Ten-thousandths of an inch per inch.
const SCALE: f64 = 10_000.0;

fn units(x: f64) -> i64 {
    (x * SCALE).round() as i64
}

fn inches(x: i64) -> f64 {
    x as f64 / SCALE
}

fn solve(pitch: u32, given: Given) -> Solved {
    let rad = (pitch as f64 / 12.0).atan();
    match given {
        Given::Opposite(a) => {
            let a = a as f64;
            let b = a / rad.tan();
            Solved { side: b.round() as i64, hypotenuse: pythagoras::theorem(a, b).round() as i64 }
        }
        Given::Adjacent(b) => {
            let b = b as f64;
            let a = b * rad.tan();
            Solved { side: a.round() as i64, hypotenuse: pythagoras::theorem(a, b).round() as i64 }
        }
    }
}

fn solve_all(plan: &SolvePlan) -> RafterSolves {
    RafterSolves {
        main: solve(plan.pitch, plan.main),
        seat: solve(plan.pitch, plan.seat),
        heel: solve(plan.pitch, plan.heel),
        overhang: solve(plan.pitch, plan.overhang),
        angled: solve(plan.pitch, plan.angled),
    }
}

fn input(pitch: u32, span: f64, rafter_width: f64, wall_width: f64) -> RafterInput {
    RafterInput::new(
        pitch,
        units(span),
        units(rafter_width),
        units(wall_width),
        units(12.0),
        units(1.5),
        units(9.25),
    )
    .unwrap()
}

fn build(input: &RafterInput) -> Rafter {
    let solves = solve_all(&input.solve_plan());
    assert!(solves.in_range());
    Rafter::from_input(input, &solves)
}

fn near(x: f64, y: f64, tol: f64) -> bool {
    (x - y).abs() <= tol
}

fn pythagorean(t: &impl RightAngleLike) -> bool {
    let (r, u, l) = (t.rise() as f64, t.run() as f64, t.length() as f64);
    ((r * r + u * u - l * l) / (l * l)).abs() <= 1e-4
}

fn slope_angle_matches(t: &impl RightAngleLike) -> bool {
    let angle = (t.pitch() as f64 / 12.0).atan();
    let (r, u, l) = (t.rise() as f64, t.run() as f64, t.length() as f64);
    near((r / l).asin(), angle, 1e-3) && near((u / l).acos(), angle, 1e-3)
        && near((r / u).atan(), angle, 1e-3)
}

#[test]
fn six_pitch_rafter() {
    let inp = input(6, 24.0, 9.25, 5.5);
    let r = build(&inp);
    assert_eq!(r.run, units(11.25));
    assert!(near(inches(r.rise), 5.625, 1e-3));
    assert!(near(inches(r.length), 12.583, 0.01));
    assert!(near((inches(r.rise) / inches(r.run)).atan().to_degrees(), 26.57, 0.01));
    assert_eq!(inp.max_heel(), units(9.25) / 3);
    assert!(near(inches(inp.max_heel()), 3.083, 1e-3));
    assert_eq!(r.birds_mouth.seat, units(5.5));
    assert!(near(inches(r.birds_mouth.heel), 2.75, 1e-3));
    assert!(r.birds_mouth.heel <= inp.max_heel());
}

#[test]
fn six_pitch_derived_values() {
    let inp = input(6, 24.0, 9.25, 5.5);
    let r = build(&inp);
    assert_eq!(r.total_length, r.tail.length + r.length);
    assert_eq!(r.ridge_beam_height, r.rise + r.angled_width - r.birds_mouth.heel);
    assert_eq!(r.total_height, r.ridge_beam_height);
    assert_eq!(r.width, units(9.25));
    assert_eq!(r.beam, Beam::new(units(1.5), units(9.25)));
    assert_eq!(r.tail.run, units(12.0));
    assert!(near(inches(r.tail.rise), 6.0, 1e-3));
    assert_eq!(r.birds_mouth.seat_start(), r.tail.rise);
    assert!(near(inches(r.angled_width), 4.625, 1e-3));
    assert!(near(inches(r.total_length), 12.5779 + 13.4164, 1e-3));
}

#[test]
fn parts_are_right_triangles_at_their_pitch() {
    for pitch in [1u32, 4, 6, 9, 12, 18] {
        for width in [3.5, 5.5, 9.25, 11.25] {
            let r = build(&input(pitch, 30.0, width, 5.5));
            assert!(pythagorean(&r));
            assert!(pythagorean(&r.birds_mouth));
            assert!(pythagorean(&r.tail));
            assert!(slope_angle_matches(&r));
            assert!(slope_angle_matches(&r.birds_mouth));
            assert!(slope_angle_matches(&r.tail));
        }
    }
}

#[test]
fn flat_roof() {
    let inp = input(0, 24.0, 9.25, 5.5);
    let r = build(&inp);
    assert_eq!(r.pitch, 0);
    assert_eq!(r.rise, 0);
    assert_eq!(r.length, r.run);
    assert_eq!(r.birds_mouth.heel, 0);
    assert_eq!(r.birds_mouth.length, r.birds_mouth.seat);
    assert_eq!(r.birds_mouth.seat, units(5.5));
    assert_eq!(r.birds_mouth.seat_start, 0);
    assert_eq!(r.tail.rise, 0);
    assert_eq!(r.tail.length, r.tail.run);
}

#[test]
fn narrow_rafter_caps_heel() {
    let inp = input(6, 24.0, 3.0, 5.5);
    let r = build(&inp);
    assert_eq!(r.birds_mouth.heel, inp.max_heel());
    assert_eq!(r.birds_mouth.heel, units(3.0) / 3);
    assert!(r.birds_mouth.seat < units(5.5));
    assert!(near(inches(r.birds_mouth.seat), 2.0, 1e-3));
}

#[test]
fn heel_never_exceeds_a_third() {
    for pitch in [0u32, 3, 6, 12, 24] {
        for width in [1.5, 3.0, 5.5, 9.25] {
            for wall in [3.5, 5.5, 7.25] {
                let inp = input(pitch, 24.0, width, wall);
                let r = build(&inp);
                assert!(r.birds_mouth.heel <= units(width) / 3);
            }
        }
    }
}

#[test]
fn heel_at_the_limit_keeps_full_seat() {
    let inp = input(6, 24.0, 16.5, 5.5);
    let seat = Solved { side: inp.max_heel(), hypotenuse: 61492 };
    let heel = Solved { side: 1, hypotenuse: 2 };
    let start = Solved { side: 60000, hypotenuse: 134164 };
    let b = BirdsMouth::from_input(&inp, seat, heel, start);
    assert_eq!(b.heel, inp.max_heel());
    assert_eq!(b.seat, inp.wall_width);
    assert_eq!(b.length, 61492);
    assert_eq!(b.seat_start, 60000);
    assert_eq!(b.pitch, 6);
}

#[test]
fn notch_takes_capped_solve_above_limit() {
    let inp = input(6, 24.0, 9.25, 5.5);
    let seat = Solved { side: inp.max_heel() + 1, hypotenuse: 9 };
    let heel = Solved { side: 123, hypotenuse: 456 };
    let start = Solved { side: 7, hypotenuse: 8 };
    let b = BirdsMouth::from_input(&inp, seat, heel, start);
    assert_eq!((b.rise(), b.run(), b.length(), b.pitch()), (inp.max_heel(), 123, 456, 6));
}

#[test]
fn tail_from_solve() {
    let t = Tail::from_pitch_and_run(4, 120000, Solved { side: 40000, hypotenuse: 126491 });
    assert_eq!((t.rise(), t.run(), t.length(), t.pitch()), (40000, 120000, 126491, 4));
}

#[test]
fn rafter_run_and_plan() {
    let inp = RafterInput::new(5, 241, 90, 55, 0, 15, 92).unwrap();
    assert_eq!(inp.rafter_run(), 120 - 7);
    assert_eq!(inp.max_heel(), 30);
    let plan = inp.solve_plan();
    assert_eq!(plan.pitch, 5);
    assert_eq!(plan.main, Given::Adjacent(113));
    assert_eq!(plan.seat, Given::Adjacent(55));
    assert_eq!(plan.heel, Given::Opposite(30));
    assert_eq!(plan.overhang, Given::Adjacent(0));
    assert_eq!(plan.angled, Given::Adjacent(90));
}

#[test]
fn exact_composition() {
    let inp = RafterInput::new(6, 2000, 900, 550, 1200, 100, 900).unwrap();
    let solves = RafterSolves {
        main: Solved { side: 475, hypotenuse: 1062 },
        seat: Solved { side: 275, hypotenuse: 615 },
        heel: Solved { side: 600, hypotenuse: 671 },
        overhang: Solved { side: 600, hypotenuse: 1342 },
        angled: Solved { side: 450, hypotenuse: 1006 },
    };
    let r = Rafter::from_input(&inp, &solves);
    assert_eq!(r.run, 950);
    assert_eq!(r.rise, 475);
    assert_eq!(r.length, 1062);
    assert_eq!(r.angled_width, 450);
    assert_eq!(r.birds_mouth.heel, 275);
    assert_eq!(r.ridge_beam_height, 475 + 450 - 275);
    assert_eq!(r.total_height, 650);
    assert_eq!(r.total_length, 1342 + 1062);
}

#[test]
fn invalid_fields_are_named() {
    assert_eq!(RafterInput::new(6, 0, 1, 1, 0, 1, 1), Err(InvalidInput::Span));
    assert_eq!(RafterInput::new(6, 1, -1, 1, 0, 1, 1), Err(InvalidInput::RafterWidth));
    assert_eq!(RafterInput::new(6, 1, 1, 0, 0, 1, 1), Err(InvalidInput::WallWidth));
    assert_eq!(RafterInput::new(6, 1, 1, 1, -1, 1, 1), Err(InvalidInput::Overhang));
    assert_eq!(RafterInput::new(6, 1, 1, 1, 0, 0, 1), Err(InvalidInput::BeamThickness));
    assert_eq!(RafterInput::new(6, 1, 1, 1, 0, 1, 0), Err(InvalidInput::BeamWidth));
    assert_eq!(RafterInput::new(6, LENGTH_LIMIT + 1, 1, 1, 0, 1, 1), Err(InvalidInput::Span));
    assert_eq!(RafterInput::new(6, 0, 0, 0, -1, 0, 0), Err(InvalidInput::Span));
    assert!(RafterInput::new(0, LENGTH_LIMIT, 1, 1, LENGTH_LIMIT, 1, 1).is_ok());
}

#[test]
fn solves_out_of_range_are_reported() {
    let ok = Solved { side: 1, hypotenuse: 2 };
    assert!(ok.in_range());
    assert!(!Solved { side: -1, hypotenuse: 2 }.in_range());
    assert!(!Solved { side: 1, hypotenuse: LENGTH_LIMIT + 1 }.in_range());
    let huge = Solved { side: i64::MAX, hypotenuse: i64::MAX };
    let s = RafterSolves { main: ok, seat: ok, heel: huge, overhang: ok, angled: ok };
    assert!(s.in_range());
    assert!(!RafterSolves { angled: huge, ..s }.in_range());
}
