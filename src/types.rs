//! The result of probing one plugin, whichever protocol it speaks.
use vstd::prelude::*;

use crate::vst2::Vst2Info;
use crate::vst3::Vst3Info;

verus! {

/// What a probe found, tagged by the protocol that found it.
#[derive(Debug)]
pub enum PluginInfo {
    Vst2(Vst2Info),
    Vst3(Vst3Info),
}

} // verus!
