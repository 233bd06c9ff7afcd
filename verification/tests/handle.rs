use pffft_safe::setup::PffftSetup;

// One transform call, as the engine-facing shell drives it, with the engine
// step left out: check the preconditions and load the input, then copy the
// aligned output window back out.
fn run_without_engine(setup: &mut PffftSetup<f32>, input: &[f32], output: &mut [f32]) -> bool {
    if !setup.prepare_transform(input, output.len()) {
        return false;
    }
    setup.collect_output(output);
    true
}

#[test]
fn test_unsafe() {
    let mut setup = PffftSetup::new(1024, true, false, 0.0f32);
    let input = vec![0.0f32; 1024];
    let mut output = vec![0.0f32; 1024];
    run_without_engine(&mut setup, &input, &mut output);
}

#[test]
fn test_forward_safe_no_crash() {
    let mut setup = PffftSetup::new(32, true, false, 0.0f32);
    let input = vec![0.0f32; 32];
    let mut output = vec![0.0f32; 32];
    run_without_engine(&mut setup, &input, &mut output);
}

#[test]
fn test_backward_safe_no_crash() {
    let mut setup = PffftSetup::new(32, true, false, 0.0f32);
    let input = vec![0.0f32; 32];
    let mut output = vec![0.0f32; 32];
    run_without_engine(&mut setup, &input, &mut output);
}

#[test]
fn size_mismatch_is_refused_and_output_untouched() {
    let mut setup = PffftSetup::new(4, true, false, 0u32);

    let short_input = vec![1u32, 2, 3];
    let mut output = vec![5u32, 6, 7, 8];
    assert!(!setup.prepare_transform(&short_input, output.len()));
    assert_eq!(output, vec![5u32, 6, 7, 8]);

    let input = vec![1u32, 2, 3, 4];
    let mut long_output = vec![9u32; 5];
    assert!(!setup.prepare_transform(&input, long_output.len()));
    assert_eq!(long_output, vec![9u32; 5]);

    // A refused call leaves the aligned input window untouched as well.
    let off = setup.input_offset();
    let (inb, _outb, _wkb) = setup.buffers_mut();
    assert_eq!(&inb[off..off + 4], &[0u32, 0, 0, 0]);
}

#[test]
fn absent_plan_refuses_both_directions() {
    // A handle built backward-only gets no plan at all, so every call fails
    // even with agreeing sizes.
    let mut setup = PffftSetup::new(32, false, true, 0.0f32);
    assert!(!setup.plan_present());
    let input = vec![1.0f32; 32];
    let mut output = vec![0.0f32; 32];
    assert!(!run_without_engine(&mut setup, &input, &mut output));
    assert!(!run_without_engine(&mut setup, &input, &mut output));
    assert_eq!(output, vec![0.0f32; 32]);
}

#[test]
fn prepare_copies_input_into_aligned_window() {
    let mut setup = PffftSetup::new(4, true, false, 7u32);
    let input = vec![1u32, 2, 3, 4];
    assert!(setup.prepare_transform(&input, 4));

    let off = setup.input_offset();
    let (inb, _outb, _wkb) = setup.buffers_mut();
    assert_eq!(&inb[off..off + 4], &[1u32, 2, 3, 4]);
    // Everything outside the window keeps the fill value.
    for (i, v) in inb.iter().enumerate() {
        if i < off || i >= off + 4 {
            assert_eq!(*v, 7u32);
        }
    }
}

#[test]
fn collect_copies_aligned_window_out() {
    let mut setup = PffftSetup::new(4, true, false, 0u32);
    let off = setup.output_offset();
    {
        // Stand in for the engine: write into the aligned output window.
        let (_inb, outb, _wkb) = setup.buffers_mut();
        for i in 0..4 {
            outb[off + i] = 9 - i as u32;
        }
    }
    let mut output = vec![0u32; 4];
    setup.collect_output(&mut output);
    assert_eq!(output, vec![9u32, 8, 7, 6]);
}

#[test]
fn plan_is_taken_exactly_once() {
    let mut setup = PffftSetup::new(32, true, false, 0.0f32);
    assert!(setup.plan_present());
    assert!(setup.take_plan());
    assert!(!setup.plan_present());
    assert!(!setup.take_plan());

    // A handle that never had a plan never yields one.
    let mut bare = PffftSetup::new(32, false, false, 0.0f32);
    assert!(!bare.take_plan());
    assert!(!bare.take_plan());
}

#[test]
fn released_handle_refuses_transforms() {
    let mut setup = PffftSetup::new(8, true, false, 0.0f32);
    assert!(setup.take_plan());
    let input = vec![1.0f32; 8];
    let mut output = vec![0.0f32; 8];
    assert!(!run_without_engine(&mut setup, &input, &mut output));
}

#[test]
fn many_handles_release_cleanly() {
    // A long construct-and-release sequence: each handle yields its plan
    // exactly once, whatever its width.
    let mut taken: usize = 0;
    for i in 0..10_000usize {
        let width = (i % 64) + 1;
        let mut setup = PffftSetup::new(width, true, false, 0.0f32);
        if setup.take_plan() {
            taken += 1;
        }
        assert!(!setup.take_plan());
    }
    assert_eq!(taken, 10_000);
}

#[test]
fn independent_handles_see_the_same_data() {
    // Two handles of the same width, driven identically, expose identical
    // aligned input windows and identical collected outputs.
    let input = vec![3.5f32, -1.0, 0.25, 2.0];
    let mut a = PffftSetup::new(4, true, false, 0.0f32);
    let mut b = PffftSetup::new(4, true, false, 0.0f32);
    assert!(a.prepare_transform(&input, 4));
    assert!(b.prepare_transform(&input, 4));

    let a_off = a.input_offset();
    let b_off = b.input_offset();
    let a_window: Vec<f32> = {
        let (inb, _, _) = a.buffers_mut();
        inb[a_off..a_off + 4].to_vec()
    };
    let b_window: Vec<f32> = {
        let (inb, _, _) = b.buffers_mut();
        inb[b_off..b_off + 4].to_vec()
    };
    assert_eq!(a_window, b_window);

    let mut out_a = vec![0.0f32; 4];
    let mut out_b = vec![0.0f32; 4];
    a.collect_output(&mut out_a);
    b.collect_output(&mut out_b);
    assert_eq!(out_a, out_b);
}

#[test]
fn handle_reports_its_width() {
    let setup = PffftSetup::new(17, true, true, 0.0f32);
    assert_eq!(setup.width(), 17);
    assert!(setup.plan_present());
}
