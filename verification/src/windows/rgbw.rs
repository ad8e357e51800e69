//! RGBW profiles: a master and six fixtures, each with four levels.

use vstd::prelude::*;

use crate::actions::{osc, Effect, OscValue};

verus! {

/// The number of profiles: the master, number 0, and six fixtures.
pub const RGBW_NUM_PROFILES: usize = 7;

/// Colours of lit and unlit steps, by channel.
pub const RGBW_COLOR_R_ON: u8 = 5;

pub const RGBW_COLOR_R_OFF: u8 = 1;

pub const RGBW_COLOR_G_ON: u8 = 21;

pub const RGBW_COLOR_G_OFF: u8 = 17;

pub const RGBW_COLOR_B_ON: u8 = 45;

pub const RGBW_COLOR_B_OFF: u8 = 41;

pub const RGBW_COLOR_W_ON: u8 = 72;

pub const RGBW_COLOR_W_OFF: u8 = 1;

/// Colours of the profile buttons: white for the master, blue for the fixtures,
/// yellow for the profile that is shown.
pub const PROFILE_COLOR_MASTER: u8 = 72;

pub const PROFILE_COLOR_FIXTURE: u8 = 45;

pub const PROFILE_COLOR_ACTIVE: u8 = 13;

pub const PROFILE_COLOR_UNUSED: u8 = 0;

/// OSC addresses by fixture, for each of the four channels.
#[derive(Clone, Debug)]
pub struct RgbwConfig {
    pub r_addresses: Vec<String>,
    pub g_addresses: Vec<String>,
    pub b_addresses: Vec<String>,
    pub w_addresses: Vec<String>,
}

/// The levels of red, green, blue and white, 0 (off) to 8 (full).
#[derive(Clone, Copy, Debug)]
pub struct RgbwProfile {
    pub levels: [u8; 4],
}

/// The profiles of an RGBW page and the one that is shown.
#[derive(Clone, Copy, Debug)]
pub struct RgbwState {
    pub profiles: [RgbwProfile; RGBW_NUM_PROFILES],
    pub active_profile: usize,
}

/// The model of an RGBW page: the levels by profile and channel.
#[verifier::ext_equal]
pub struct RgbwModel {
    pub levels: Seq<Seq<u8>>,
    pub active: int,
}

impl View for RgbwState {
    type V = RgbwModel;

    open spec fn view(&self) -> RgbwModel {
        RgbwModel {
            levels: Seq::new(7, |p: int| self.profiles@[p].levels@),
            active: self.active_profile as int,
        }
    }
}

/// All levels 0, the master shown.
pub open spec fn rgbw_default() -> RgbwModel {
    RgbwModel { levels: Seq::new(7, |p: int| Seq::new(4, |c: int| 0u8)), active: 0 }
}

impl RgbwModel {
    /// Seven profiles of four levels, one of them shown.
    pub open spec fn wf(self) -> bool {
        &&& self.levels.len() == 7
        &&& forall|p: int| 0 <= p < 7 ==> (#[trigger] self.levels[p]).len() == 4
        &&& 0 <= self.active < 7
    }

    /// The levels of the profile that is shown.
    pub open spec fn shown_levels(self) -> Seq<u8> {
        self.levels[self.active]
    }

    /// With another level for a channel of the profile that is shown.
    pub open spec fn with_level(self, channel: int, level: u8) -> RgbwModel {
        RgbwModel {
            levels: self.levels.update(
                self.active,
                self.levels[self.active].update(channel, level),
            ),
            ..self
        }
    }

    /// With another profile shown. A fixture starts from the master's levels.
    pub open spec fn with_profile(self, profile: int) -> RgbwModel {
        RgbwModel {
            levels: if profile == 0 {
                self.levels
            } else {
                self.levels.update(profile, self.levels[0])
            },
            active: profile,
        }
    }
}

impl Default for RgbwProfile {
    fn default() -> (profile: RgbwProfile)
        ensures
            profile.levels@ == Seq::new(4, |c: int| 0u8),
    {
        let profile = RgbwProfile { levels: [0, 0, 0, 0] };
        assert(profile.levels@ =~= Seq::new(4, |c: int| 0u8));
        profile
    }
}

impl Default for RgbwState {
    fn default() -> (state: RgbwState)
        ensures
            state@ == rgbw_default(),
    {
        let p = RgbwProfile::default();
        let state = RgbwState { profiles: [p, p, p, p, p, p, p], active_profile: 0 };
        assert(state@.levels =~= rgbw_default().levels);
        state
    }
}

impl RgbwState {
    /// Sets the level of a channel of the profile that is shown.
    pub fn set_level(&mut self, channel: usize, level: u8)
        requires
            old(self).active_profile < 7,
            channel < 4,
        ensures
            final(self)@ == old(self)@.with_level(channel as int, level),
    {
        let active: usize = self.active_profile;
        let mut profile = self.profiles[active];
        profile.levels[channel] = level;
        self.profiles[active] = profile;
        assert(self@.levels =~= old(self)@.with_level(channel as int, level).levels);
    }

    /// Shows another profile.
    pub fn select_profile(&mut self, profile: usize)
        requires
            profile < 7,
        ensures
            final(self)@ == old(self)@.with_profile(profile as int),
    {
        if profile != 0 {
            let master = self.profiles[0];
            self.profiles[profile] = RgbwProfile { levels: master.levels };
        }
        self.active_profile = profile;
        assert(self@.levels =~= old(self)@.with_profile(profile as int).levels);
    }
}

/// The addresses of a channel.
pub open spec fn channel_addresses(rgbw: RgbwConfig, channel: int) -> Seq<String> {
    if channel == 0 {
        rgbw.r_addresses@
    } else if channel == 1 {
        rgbw.g_addresses@
    } else if channel == 2 {
        rgbw.b_addresses@
    } else {
        rgbw.w_addresses@
    }
}

/// The addresses that a level of a profile goes to: all of them for the master,
/// otherwise that of the one fixture, where it has one.
pub open spec fn profile_addresses(rgbw: RgbwConfig, profile: int, channel: int) -> Seq<String> {
    let all = channel_addresses(rgbw, channel);
    if profile == 0 {
        all
    } else if profile - 1 < all.len() {
        seq![all[profile - 1]]
    } else {
        Seq::empty()
    }
}

/// One message to every address.
pub open spec fn osc_to_all(addresses: Seq<String>, value: OscValue) -> Seq<Effect> {
    addresses.map_values(|address: String| osc(address@, value))
}

/// Setting a level changes that level of that profile and nothing else.
pub proof fn law_set_level(model: RgbwModel, channel: int, level: u8, p: int, c: int)
    requires
        model.wf(),
        0 <= channel < 4,
        0 <= p < 7,
        0 <= c < 4,
    ensures
        model.with_level(channel, level).wf(),
        model.with_level(channel, level).levels[p][c] == (if p == model.active && c == channel {
            level
        } else {
            model.levels[p][c]
        }),
{
}

/// A fixture profile starts from the master's levels; showing the master changes no level.
pub proof fn law_select_profile(model: RgbwModel, profile: int)
    requires
        model.wf(),
        0 <= profile < 7,
    ensures
        model.with_profile(profile).wf(),
        model.with_profile(profile).shown_levels() == model.levels[0],
        profile == 0 ==> model.with_profile(profile).levels == model.levels,
        forall|p: int|
            0 <= p < 7 && p != profile ==> #[trigger] model.with_profile(profile).levels[p]
                == model.levels[p],
{
}

/// What is set on the master goes to every fixture of the channel; what is set
/// on a fixture goes to that fixture alone.
pub proof fn law_profile_addresses(rgbw: RgbwConfig, profile: int, channel: int)
    requires
        0 <= profile < 7,
    ensures
        profile == 0 ==> profile_addresses(rgbw, profile, channel) == channel_addresses(
            rgbw,
            channel,
        ),
        profile > 0 ==> profile_addresses(rgbw, profile, channel).len() <= 1,
        profile > 0 && profile <= channel_addresses(rgbw, channel).len() ==> profile_addresses(
            rgbw,
            profile,
            channel,
        ) == seq![channel_addresses(rgbw, channel)[profile - 1]],
{
}

/// Setting a level or showing another profile leaves the rest of the model as it is.
pub proof fn law_profiles_stay(model: RgbwModel, channel: int, level: u8, profile: int)
    requires
        model.wf(),
        0 <= channel < 4,
        0 <= profile < 7,
    ensures
        model.with_level(channel, level).active == model.active,
        model.with_level(channel, level).levels.len() == 7,
        model.with_profile(profile).active == profile,
        model.with_profile(profile).levels.len() == 7,
        model.shown_levels() == model.levels[model.active],
{
}

/// The model holds the levels and the profile that is shown as they are.
pub proof fn law_model(state: RgbwState, p: int, c: int)
    requires
        0 <= p < 7,
        0 <= c < 4,
    ensures
        state@.active == state.active_profile,
        state@.levels.len() == 7,
        state@.levels[p].len() == 4,
        state@.levels[p][c] == state.profiles[p].levels[c],
{
}

/// A profile that is chosen takes over the levels of the master, and no other profile
/// changes, whichever was shown before.
pub proof fn law_master_is_copied(model: RgbwModel, profile: int, p: int)
    requires
        model.levels.len() == 7,
        0 <= profile < 7,
        0 <= p < 7,
    ensures
        model.with_profile(profile).active == profile,
        model.with_profile(profile).levels.len() == 7,
        model.with_profile(profile).levels[profile] == model.levels[0],
        p != profile ==> model.with_profile(profile).levels[p] == model.levels[p],
{
}

} // verus!
