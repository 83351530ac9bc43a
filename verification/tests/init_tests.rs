use sdl2_image::build_init_failure_message;
use sdl2_image::init;
use sdl2_image::ImageFormat;
use sdl2_image::PartialInit;
use sdl2_image::Sdl2ImageContext;
use sdl2_image::INIT_JPG;
use sdl2_image::INIT_PNG;
use sdl2_image::INIT_TIF;
use sdl2_image::INIT_WEBP;

fn init_with_bits(bits: u32) -> PartialInit {
    let mut p = init();
    if bits & INIT_TIF != 0 {
        p = p.tif();
    }
    if bits & INIT_PNG != 0 {
        p = p.png();
    }
    if bits & INIT_JPG != 0 {
        p = p.jpg();
    }
    if bits & INIT_WEBP != 0 {
        p = p.webp();
    }
    p
}

fn context() -> Sdl2ImageContext {
    match init().png().finish(INIT_PNG, String::new()) {
        Ok(ctx) => ctx,
        Err(e) => panic!("initialization unexpectedly failed: {}", e),
    }
}

#[test]
fn builder_starts_empty() {
    assert_eq!(init().requested_flags(), 0);
}

#[test]
fn builder_accumulates_each_flag() {
    assert_eq!(init().jpg().requested_flags(), INIT_JPG);
    assert_eq!(init().png().requested_flags(), INIT_PNG);
    assert_eq!(init().tif().requested_flags(), INIT_TIF);
    assert_eq!(init().webp().requested_flags(), INIT_WEBP);
}

#[test]
fn builder_combines_in_any_order() {
    let a = init().png().jpg().requested_flags();
    let b = init().jpg().png().requested_flags();
    assert_eq!(a, INIT_PNG | INIT_JPG);
    assert_eq!(a, b);
}

#[test]
fn builder_toggles_are_idempotent() {
    assert_eq!(init().png().png().requested_flags(), INIT_PNG);
    assert_eq!(
        init().webp().tif().webp().requested_flags(),
        INIT_WEBP | INIT_TIF
    );
}

#[test]
fn finish_succeeds_when_a_flag_is_granted() {
    let r = init().png().finish(INIT_PNG, String::new());
    assert!(r.is_ok());
}

#[test]
fn finish_partial_grant_counts_as_success() {
    let r = init().png().jpg().finish(INIT_JPG, String::new());
    assert!(r.is_ok());
}

#[test]
fn finish_keeps_the_native_error_text() {
    let r = init().png().finish(0, String::from("native boom"));
    assert_eq!(r.err(), Some(String::from("native boom")));
}

#[test]
fn finish_with_no_flags_is_rejected() {
    let r = init().finish(0, String::new());
    assert_eq!(
        r.err(),
        Some(String::from("Could not initialize the following parts: "))
    );
}

#[test]
fn finish_with_no_flags_is_rejected_whatever_was_granted() {
    let r = init().finish(INIT_TIF | INIT_JPG, String::new());
    assert_eq!(
        r.err(),
        Some(String::from(
            "Could not initialize the following parts: TIF, JPG"
        ))
    );
}

#[test]
fn finish_synthesizes_message_for_one_format() {
    let r = init().png().finish(0, String::new());
    assert_eq!(
        r.err(),
        Some(String::from("Could not initialize the following parts: PNG"))
    );
}

#[test]
fn finish_synthesizes_message_for_all_four_formats() {
    let r = init().tif().png().jpg().webp().finish(0, String::new());
    assert_eq!(
        r.err(),
        Some(String::from(
            "Could not initialize the following parts: TIF, PNG, JPG, WEBP"
        ))
    );
}

#[test]
fn finish_message_comes_from_the_xor_of_requested_and_granted() {
    let r = init().png().finish(INIT_JPG, String::new());
    assert_eq!(
        r.err(),
        Some(String::from(
            "Could not initialize the following parts: PNG, JPG"
        ))
    );
}

#[test]
fn synthesized_list_is_exact_for_every_subset() {
    for bits in 0u32..16 {
        let mut parts: Vec<&str> = Vec::new();
        if bits & INIT_TIF != 0 {
            parts.push("TIF");
        }
        if bits & INIT_PNG != 0 {
            parts.push("PNG");
        }
        if bits & INIT_JPG != 0 {
            parts.push("JPG");
        }
        if bits & INIT_WEBP != 0 {
            parts.push("WEBP");
        }
        let expected = format!(
            "Could not initialize the following parts: {}",
            parts.join(", ")
        );
        assert_eq!(build_init_failure_message(bits, 0), expected);
        let r = init_with_bits(bits).finish(0, String::new());
        assert_eq!(r.err(), Some(expected));
    }
}

#[test]
fn probe_reports_native_match() {
    let ctx = context();
    assert!(ctx.rwops_is(&ImageFormat::Png, 1));
    assert!(!ctx.rwops_is(&ImageFormat::Png, 0));
    assert!(!ctx.rwops_is(&ImageFormat::Jpg, 2));
}

#[test]
fn probe_for_tga_is_always_false() {
    let ctx = context();
    assert!(!ctx.rwops_is(&ImageFormat::Tga, 1));
    assert!(!ctx.rwops_is(&ImageFormat::Tga, 0));
    assert!(!ctx.probe_has_native_routine(&ImageFormat::Tga));
    assert!(ctx.probe_has_native_routine(&ImageFormat::Png));
}

#[test]
fn load_outcome_wraps_handle_or_error() {
    let ctx = context();
    assert_eq!(ctx.load_outcome(Some(7u32), String::new()), Ok(7u32));
    assert_eq!(
        ctx.load_outcome::<u32>(None, String::from("missing file")),
        Err(String::from("missing file"))
    );
}

#[test]
fn save_outcome_is_decided_by_the_return_code() {
    let ctx = context();
    assert_eq!(ctx.save_outcome(0, String::new()), Ok(()));
    assert_eq!(
        ctx.save_outcome(-1, String::from("disk full")),
        Err(String::from("disk full"))
    );
}
