//! Verified core of an SDL2_image binding.
//!
//! The native image library is reached through a thin foreign-function layer
//! that lives outside this crate.  What this crate holds, and what is proved
//! here, is every decision that layer makes on plain values:
//!
//! * the initialization-flag builder and the rule that turns the flags the
//!   native initializer granted into a typed success or failure,
//! * the synthesized failure message that lists the formats which could not
//!   be initialized,
//! * the translation of the native sentinels (null handle, non-zero return
//!   code, detection code) into typed results,
//! * the one format with no native detection routine, which always reports
//!   "not this format".

use vstd::prelude::*;

mod init_message;

pub use init_message::append_part;
pub use init_message::build_init_failure_message;
pub use init_message::failed_list;
pub use init_message::init_failure_message;
pub use init_message::lemma_failed_list_empty_iff_no_flags;
pub use init_message::lemma_failed_list_no_trailing_separator;

verus! {

/// Flag bit that requests JPEG support from the native initializer.
pub const INIT_JPG: u32 = 1;

/// Flag bit that requests PNG support from the native initializer.
pub const INIT_PNG: u32 = 2;

/// Flag bit that requests TIFF support from the native initializer.
pub const INIT_TIF: u32 = 4;

/// Flag bit that requests WEBP support from the native initializer.
pub const INIT_WEBP: u32 = 8;

/// The supported image formats of the native library.
#[derive(Debug, Clone, PartialEq, Eq, Structural)]
pub enum ImageFormat {
    Cur,
    Ico,
    Bmp,
    Pnm,
    Xpm,
    Xcf,
    Pcx,
    Gif,
    Jpg,
    Tif,
    Png,
    Tga,
    Lbm,
    Xv,
    Webp,
}

/// A partial initialization of the library: the requested format-support
/// flags, accumulated before the one native initialization call is made.
///
/// The flags only ever grow: each toggle adds its bit and nothing clears one.
/// The builder is consumed by [`PartialInit::finish`], so it can be finished
/// at most once.
#[must_use]
pub struct PartialInit {
    flags: u32,
}

impl PartialInit {
    /// The flag bits requested so far.
    pub closed spec fn requested(&self) -> u32 {
        self.flags
    }

    /// Reports the flag bits requested so far.
    pub fn requested_flags(&self) -> (r: u32)
        ensures
            r == self.requested(),
    {
        self.flags
    }

    /// Activate PNG support for the library.
    pub fn png(self) -> (r: PartialInit)
        ensures
            r.requested() == self.requested() | INIT_PNG,
    {
        PartialInit { flags: self.flags | INIT_PNG }
    }

    /// Activate JPEG support for the library.
    pub fn jpg(self) -> (r: PartialInit)
        ensures
            r.requested() == self.requested() | INIT_JPG,
    {
        PartialInit { flags: self.flags | INIT_JPG }
    }

    /// Activate TIFF support for the library.
    pub fn tif(self) -> (r: PartialInit)
        ensures
            r.requested() == self.requested() | INIT_TIF,
    {
        PartialInit { flags: self.flags | INIT_TIF }
    }

    /// Activate WEBP support for the library.
    pub fn webp(self) -> (r: PartialInit)
        ensures
            r.requested() == self.requested() | INIT_WEBP,
    {
        PartialInit { flags: self.flags | INIT_WEBP }
    }
}

/// Starts an initialization request with no format-support flags set.
pub fn init() -> (r: PartialInit)
    ensures
        r.requested() == 0,
{
    PartialInit { flags: 0 }
}

/// Success rule of the one-shot native initialization: the request succeeds
/// when the native library granted at least one of the requested flags.
/// Partial success — some but not all requested flags granted — counts as
/// full success.
pub open spec fn init_succeeds(requested: u32, granted: u32) -> bool {
    requested & granted != 0
}

/// The boolean a format-detection query reports: the native detection
/// routine returned the code `1`, and the format was not TGA, for which no
/// routine exists and the query is hard-coded to report `false`.
pub open spec fn probe_reports(format: ImageFormat, code: i32) -> bool {
    format != ImageFormat::Tga && code == 1
}

/// Context manager for the native image library.  A value of this type
/// witnesses that the one-shot native initialization succeeded: every
/// loading and saving decision is a method on it, and the type can be
/// neither copied nor cloned, so once its owner tears it down no operation
/// can be reached through it again.
#[must_use]
#[derive(Debug)]
pub struct Sdl2ImageContext;

impl Sdl2ImageContext {
    /// Whether the native library has a detection routine for `format`:
    /// every format but TGA has one.
    pub fn probe_has_native_routine(&self, format: &ImageFormat) -> (r: bool)
        ensures
            r == (*format != ImageFormat::Tga),
    {
        match format {
            ImageFormat::Tga => false,
            _ => true,
        }
    }

    /// Decides a format-detection query from the code the native detection
    /// routine returned (`0` where no routine was called, as with TGA).
    pub fn rwops_is(&self, format: &ImageFormat, native_code: i32) -> (r: bool)
        ensures
            r == probe_reports(*format, native_code),
    {
        match format {
            ImageFormat::Tga => false,
            _ => native_code == 1,
        }
    }

    /// Types the outcome of a native load call: the handle when one came
    /// back, otherwise the error text read from the native error slot at the
    /// moment of failure.
    pub fn load_outcome<T>(&self, handle: Option<T>, error: String) -> (r: Result<T, String>)
        ensures
            handle matches Some(h) ==> r == Ok::<T, String>(h),
            handle is None ==> r == Err::<T, String>(error),
    {
        match handle {
            Some(h) => Ok(h),
            None => Err(error),
        }
    }

    /// Types the outcome of a native save call: a non-zero return code
    /// signals failure, in which case the error text is surfaced.
    pub fn save_outcome(&self, code: i32, error: String) -> (r: Result<(), String>)
        ensures
            code == 0 ==> r == Ok::<(), String>(()),
            code != 0 ==> r == Err::<(), String>(error),
    {
        if code != 0 {
            Err(error)
        } else {
            Ok(())
        }
    }
}

impl PartialInit {
    /// Finishes the initialization from what the one native initialization
    /// call reported: the flags it granted and the text in its error slot.
    ///
    /// The request succeeds when at least one requested flag was granted.
    /// Otherwise the result carries the native error text or, where that
    /// slot was empty, the synthesized message listing the formats that
    /// failed to initialize.
    pub fn finish(self, granted: u32, native_error: String) -> (r: Result<
        Sdl2ImageContext,
        String,
    >)
        ensures
            init_succeeds(self.requested(), granted) ==> r == Ok::<Sdl2ImageContext, String>(
                Sdl2ImageContext,
            ),
            !init_succeeds(self.requested(), granted) && native_error@.len() > 0 ==> r == Err::<
                Sdl2ImageContext,
                String,
            >(native_error),
            !init_succeeds(self.requested(), granted) && native_error@.len() == 0 ==> r is Err
                && r->Err_0@ == init_failure_message(self.requested(), granted),
    {
        if self.flags & granted != 0 {
            Ok(Sdl2ImageContext)
        } else if !native_error.as_str().is_empty() {
            Err(native_error)
        } else {
            Err(build_init_failure_message(self.flags, granted))
        }
    }
}

/// A request with no flags set is always rejected, whatever flags the
/// native initializer granted.
pub proof fn lemma_empty_request_rejected(granted: u32)
    ensures
        !init_succeeds(0, granted),
{
    assert(0u32 & granted == 0) by (bit_vector);
}

/// No TGA detection routine exists, so a TGA query reports `false` whatever
/// code stands in for the routine's answer.
pub proof fn lemma_tga_probe_reports_false(code: i32)
    ensures
        !probe_reports(ImageFormat::Tga, code),
{
}

/// The capability toggles are idempotent, commute, and never clear a bit:
/// the requested set depends only on which toggles were applied, not on how
/// often or in which order, and it only ever grows.
pub proof fn lemma_toggles_idempotent_commute_monotonic(flags: u32, a: u32, b: u32)
    ensures
        (flags | a) | a == flags | a,
        (flags | a) | b == (flags | b) | a,
        (flags | a) & flags == flags,
{
    assert((flags | a) | a == flags | a) by (bit_vector);
    assert((flags | a) | b == (flags | b) | a) by (bit_vector);
    assert((flags | a) & flags == flags) by (bit_vector);
}

} // verus!
