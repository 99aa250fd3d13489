//! The presentation surface: its configuration and the one-shot flag that
//! says a present is owed for the frame being rendered.
use vstd::prelude::*;

verus! {

#[derive(Clone, Copy, Debug, PartialEq, Eq, Structural)]
pub struct SurfaceConfig {
    pub width: u32,
    pub height: u32,
    /// The texture format, by its index in the adapter's format list.
    pub format: u32,
    pub present_mode: u32,
    pub alpha_mode: u32,
}

/// What the adapter offers for a surface, each list in its order of
/// preference.
pub struct SurfaceCapabilities {
    pub formats: Vec<u32>,
    pub present_modes: Vec<u32>,
    pub alpha_modes: Vec<u32>,
}

impl SurfaceConfig {
    /// The configuration for a window of `width` by `height`: the adapter's
    /// preferred format, present mode and alpha mode. There is none when the
    /// adapter offers no choice for one of them.
    pub fn from_capabilities(caps: &SurfaceCapabilities, width: u32, height: u32) -> (r: Option<
        SurfaceConfig,
    >)
        ensures
            r is Some <==> caps.formats@.len() > 0 && caps.present_modes@.len() > 0
                && caps.alpha_modes@.len() > 0,
            r is Some ==> r->Some_0 == (SurfaceConfig {
                width,
                height,
                format: caps.formats@[0],
                present_mode: caps.present_modes@[0],
                alpha_mode: caps.alpha_modes@[0],
            }),
    {
        if caps.formats.len() == 0 || caps.present_modes.len() == 0 || caps.alpha_modes.len() == 0 {
            return None;
        }
        Some(
            SurfaceConfig {
                width,
                height,
                format: caps.formats[0],
                present_mode: caps.present_modes[0],
                alpha_mode: caps.alpha_modes[0],
            },
        )
    }
}

pub struct Surface {
    config: SurfaceConfig,
    present_owed: bool,
}

impl Surface {
    pub closed spec fn config_spec(&self) -> SurfaceConfig {
        self.config
    }

    /// A frame has acquired the surface texture and must be presented.
    pub closed spec fn owed(&self) -> bool {
        self.present_owed
    }

    /// The surface once the current frame is marked as owing a present.
    pub closed spec fn marked(self) -> Surface {
        Surface { present_owed: true, ..self }
    }

    /// Whether a present was owed, and the surface once the flag is cleared.
    pub closed spec fn taken(self) -> (bool, Surface) {
        (self.present_owed, Surface { present_owed: false, ..self })
    }

    pub fn new(config: SurfaceConfig) -> (s: Surface)
        ensures
            s.config_spec() == config,
            !s.owed(),
    {
        Surface { config, present_owed: false }
    }

    pub fn config(&self) -> (r: SurfaceConfig)
        ensures
            r == self.config_spec(),
    {
        self.config
    }

    /// Resizes the surface; calling it again with the same size changes
    /// nothing further. Returns the configuration to apply to the device.
    pub fn reconfigure(&mut self, width: u32, height: u32) -> (r: SurfaceConfig)
        ensures
            r == (SurfaceConfig { width, height, ..old(self).config_spec() }),
            final(self).config_spec() == r,
            final(self).owed() == old(self).owed(),
    {
        self.config = SurfaceConfig { width, height, ..self.config };
        self.config
    }

    /// Records that the current frame must be presented.
    pub fn mark_present_owed(&mut self)
        ensures
            *final(self) == old(self).marked(),
            final(self).owed(),
            final(self).config_spec() == old(self).config_spec(),
    {
        self.present_owed = true;
    }

    /// Whether a present is owed, clearing the flag: it answers `true` at most
    /// once per marking.
    pub fn take_present_owed(&mut self) -> (r: bool)
        ensures
            (r, *final(self)) == old(self).taken(),
            r == old(self).owed(),
            !final(self).owed(),
            final(self).config_spec() == old(self).config_spec(),
    {
        let r = self.present_owed;
        self.present_owed = false;
        r
    }
}

/// The surface after `n` marks.
pub open spec fn marked_times(s: Surface, n: nat) -> Surface
    decreases n,
{
    if n == 0 {
        s
    } else {
        marked_times(s, (n - 1) as nat).marked()
    }
}

/// However many times a frame marks the present as owed, the take that ends
/// the frame answers `true` once, a second take answers `false`, and the
/// configuration is untouched throughout.
pub proof fn lemma_one_present_per_frame(s: Surface, n: nat)
    requires
        n > 0,
    ensures
        marked_times(s, n).taken().0,
        !marked_times(s, n).taken().1.taken().0,
        marked_times(s, n).taken().1.config_spec() == s.config_spec(),
{
    lemma_marks_keep_config(s, n);
}

proof fn lemma_marks_keep_config(s: Surface, n: nat)
    ensures
        marked_times(s, n).config_spec() == s.config_spec(),
    decreases n,
{
    if n > 0 {
        lemma_marks_keep_config(s, (n - 1) as nat);
    }
}

} // verus!
