//! The classic-filter plugin: grayscale and Sobel, both in the process
//! stage.

pub mod grayscale;
pub mod sobel;

use vstd::prelude::*;

use crate::engine::pipeline::{Registration, SystemKind};
use crate::engine::schedule::Stage;

verus! {

/// Plugin that places the classic filters in the process stage.
///
/// By default (like [`FiltersPlugin::all`]) both grayscale and Sobel are
/// enabled; [`FiltersPlugin::none`] enables nothing, for configuring the
/// switches by hand.
#[derive(Debug, Clone, Copy, PartialEq, Eq, Structural)]
pub struct FiltersPlugin {
    /// Register the grayscale filter.
    pub enable_grayscale: bool,
    /// Register the Sobel filter.
    pub enable_sobel: bool,
}

impl Default for FiltersPlugin {
    fn default() -> (res: FiltersPlugin)
        ensures
            res == (FiltersPlugin { enable_grayscale: true, enable_sobel: true }),
    {
        FiltersPlugin { enable_grayscale: true, enable_sobel: true }
    }
}

/// The registrations a filters plugin with these switches makes, in order.
pub open spec fn filter_registrations(plugin: FiltersPlugin) -> Seq<Registration> {
    let gray = if plugin.enable_grayscale {
        seq![Registration { stage: Stage::Process, system: SystemKind::Grayscale }]
    } else {
        Seq::empty()
    };
    let sobel = if plugin.enable_sobel {
        seq![Registration { stage: Stage::Process, system: SystemKind::Sobel }]
    } else {
        Seq::empty()
    };
    gray + sobel
}

/// With every filter enabled (the default, and `all()`), grayscale is
/// registered before Sobel, both
/// in the process stage; with none enabled, nothing is registered.
pub proof fn law_filter_registration_order()
    ensures
        filter_registrations(FiltersPlugin { enable_grayscale: true, enable_sobel: true }) == seq![
            Registration { stage: Stage::Process, system: SystemKind::Grayscale },
            Registration { stage: Stage::Process, system: SystemKind::Sobel },
        ],
        filter_registrations(FiltersPlugin { enable_grayscale: false, enable_sobel: false }).len()
            == 0,
{
    assert(filter_registrations(FiltersPlugin { enable_grayscale: true, enable_sobel: true }) =~= seq![
        Registration { stage: Stage::Process, system: SystemKind::Grayscale },
        Registration { stage: Stage::Process, system: SystemKind::Sobel },
    ]);
}

/// Each switch controls its own filter, for all four settings: grayscale
/// is registered exactly when `enable_grayscale`, Sobel exactly when
/// `enable_sobel`, each at most once, grayscale before Sobel, and every
/// registration is in the process stage.
pub proof fn law_registrations_follow_switches(plugin: FiltersPlugin)
    ensures
        ({
            let regs = filter_registrations(plugin);
            &&& regs.len() == (if plugin.enable_grayscale { 1int } else { 0 }) + (if plugin.enable_sobel {
                1int
            } else {
                0
            })
            &&& forall|i: int| 0 <= i < regs.len() ==> #[trigger] regs[i].stage == Stage::Process
            &&& (exists|i: int| 0 <= i < regs.len() && #[trigger] regs[i].system == SystemKind::Grayscale)
                <==> plugin.enable_grayscale
            &&& (exists|i: int| 0 <= i < regs.len() && #[trigger] regs[i].system == SystemKind::Sobel)
                <==> plugin.enable_sobel
            &&& forall|i: int, j: int|
                0 <= i < regs.len() && 0 <= j < regs.len() && #[trigger] regs[i].system
                    == SystemKind::Grayscale && #[trigger] regs[j].system == SystemKind::Sobel ==> i < j
            &&& forall|i: int|
                0 <= i < regs.len() ==> #[trigger] regs[i].system == SystemKind::Grayscale
                    || regs[i].system == SystemKind::Sobel
        }),
{
    let regs = filter_registrations(plugin);
    let g = Registration { stage: Stage::Process, system: SystemKind::Grayscale };
    let sb = Registration { stage: Stage::Process, system: SystemKind::Sobel };
    if plugin.enable_grayscale && plugin.enable_sobel {
        assert(regs =~= seq![g, sb]);
        assert(regs[0].system == SystemKind::Grayscale);
        assert(regs[1].system == SystemKind::Sobel);
    } else if plugin.enable_grayscale {
        assert(regs =~= seq![g]);
        assert(regs[0].system == SystemKind::Grayscale);
    } else if plugin.enable_sobel {
        assert(regs =~= seq![sb]);
        assert(regs[0].system == SystemKind::Sobel);
    } else {
        assert(regs =~= Seq::<Registration>::empty());
    }
}

impl FiltersPlugin {
    /// Every available filter enabled.
    pub fn all() -> (res: FiltersPlugin)
        ensures
            res == (FiltersPlugin { enable_grayscale: true, enable_sobel: true }),
    {
        FiltersPlugin { enable_grayscale: true, enable_sobel: true }
    }

    /// No filter enabled (configure the switches by hand).
    pub fn none() -> (res: FiltersPlugin)
        ensures
            res == (FiltersPlugin { enable_grayscale: false, enable_sobel: false }),
    {
        FiltersPlugin { enable_grayscale: false, enable_sobel: false }
    }

    /// Name of the plugin.
    pub fn name(&self) -> (res: &'static str)
        ensures
            res@ == "FiltersPlugin"@,
    {
        "FiltersPlugin"
    }

    /// The systems this plugin registers: grayscale when enabled, then
    /// Sobel when enabled, both in the process stage.
    pub fn registrations(&self) -> (res: Vec<Registration>)
        ensures
            res@ == filter_registrations(*self),
    {
        let mut res: Vec<Registration> = Vec::new();
        if self.enable_grayscale {
            res.push(Registration { stage: Stage::Process, system: SystemKind::Grayscale });
        }
        if self.enable_sobel {
            res.push(Registration { stage: Stage::Process, system: SystemKind::Sobel });
        }
        proof {
            assert(res@ =~= filter_registrations(*self));
        }
        res
    }
}

} // verus!
