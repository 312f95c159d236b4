use extron_scaler::{process_state, CommandFlow, Resolution, State};

fn session(step: CommandFlow, input: Resolution, output: Resolution) -> State {
    State {
        step,
        input_size: input,
        output_size: output,
        wait: false,
    }
}

#[test]
fn uninitialized_emits_nothing() {
    let sizes = vec![
        (Resolution { h: 0, v: 0 }, Resolution { h: 0, v: 0 }),
        (Resolution { h: 1920, v: 1080 }, Resolution { h: 1280, v: 720 }),
        (Resolution { h: 4294967295, v: 1 }, Resolution { h: 7, v: 4294967295 }),
    ];
    for (input, output) in sizes {
        assert_eq!(process_state(&session(CommandFlow::Uninitialized, input, output)), None);
    }
}

#[test]
fn reconfig_requests_active_pixels() {
    let s = session(
        CommandFlow::Reconfig,
        Resolution { h: 0, v: 0 },
        Resolution { h: 1920, v: 1080 },
    );
    assert_eq!(process_state(&s), Some(b"\x1bAPIX\r".to_vec()));
}

#[test]
fn got_horizontal_size_requests_active_lines() {
    let s = session(
        CommandFlow::GotHorizontalSize,
        Resolution { h: 1920, v: 0 },
        Resolution { h: 1920, v: 1080 },
    );
    assert_eq!(process_state(&s), Some(b"\x1bALIN\r".to_vec()));
}

#[test]
fn got_vertical_size_sets_horizontal_size() {
    let s = session(
        CommandFlow::GotVerticalSize,
        Resolution { h: 1920, v: 1080 },
        Resolution { h: 1920, v: 1080 },
    );
    assert_eq!(process_state(&s), Some(b"\x1b1920HSIZ\r".to_vec()));
}

#[test]
fn set_h_size_sets_vertical_size() {
    let s = session(
        CommandFlow::SetHSize,
        Resolution { h: 1920, v: 1080 },
        Resolution { h: 1920, v: 1080 },
    );
    assert_eq!(process_state(&s), Some(b"\x1b1080VSIZ\r".to_vec()));
}

#[test]
fn matching_sizes_center_at_the_bias() {
    let s = session(
        CommandFlow::SetVSize,
        Resolution { h: 1920, v: 1080 },
        Resolution { h: 1920, v: 1080 },
    );
    assert_eq!(process_state(&s), Some(b"\x1b10240HCTR\r".to_vec()));
    let s = session(
        CommandFlow::SetHCenter,
        Resolution { h: 1920, v: 1080 },
        Resolution { h: 1920, v: 1080 },
    );
    assert_eq!(process_state(&s), Some(b"\x1b10240VCTR\r".to_vec()));
}

#[test]
fn smaller_input_centers_with_positive_offset() {
    let s = session(
        CommandFlow::SetVSize,
        Resolution { h: 1280, v: 720 },
        Resolution { h: 1920, v: 1080 },
    );
    // 10240 + 1920/2 - 1280/2 = 10560
    assert_eq!(process_state(&s), Some(b"\x1b10560HCTR\r".to_vec()));
    let s = session(
        CommandFlow::SetHCenter,
        Resolution { h: 1280, v: 720 },
        Resolution { h: 1920, v: 1080 },
    );
    // 10240 + 1080/2 - 720/2 = 10420
    assert_eq!(process_state(&s), Some(b"\x1b10420VCTR\r".to_vec()));
}

#[test]
fn overhanging_input_saturates_at_zero() {
    // 10240 + 640/2 - 30000/2 would be negative; the register floor is zero.
    let s = session(
        CommandFlow::SetVSize,
        Resolution { h: 30000, v: 100 },
        Resolution { h: 640, v: 480 },
    );
    assert_eq!(process_state(&s), Some(b"\x1b0HCTR\r".to_vec()));
}

#[test]
fn zero_measurement_prints_a_single_zero() {
    let s = session(
        CommandFlow::GotVerticalSize,
        Resolution { h: 0, v: 0 },
        Resolution { h: 1920, v: 1080 },
    );
    assert_eq!(process_state(&s), Some(b"\x1b0HSIZ\r".to_vec()));
}
