//! Addresses of host objects, the host's function table and the plugin entry point.

use vstd::prelude::*;

verus! {

/// Address of a track in host memory. The host may free the track at any time.
#[derive(Clone, Copy, Debug, PartialEq, Eq, Structural, Hash)]
pub struct MediaTrack {
    pub address: usize,
}

/// Address of a project in host memory.
#[derive(Clone, Copy, Debug, PartialEq, Eq, Structural, Hash)]
pub struct ReaProject {
    pub address: usize,
}

/// Address of a PCM source in host memory.
#[derive(Clone, Copy, Debug, PartialEq, Eq, Structural, Hash)]
pub struct PcmSource {
    pub address: usize,
}

/// The version of the plugin interface that this layer speaks.
pub const REAPER_PLUGIN_VERSION: i32 = 0x20E;

/// What the host hands to a plugin's entry point, as far as the entry point looks at it.
#[derive(Clone, Copy, Debug, PartialEq, Eq, Structural)]
pub struct PluginInfo {
    /// The version of the plugin interface that the host speaks.
    pub caller_version: i32,
    /// Whether the host handed over its function provider.
    pub has_get_func: bool,
}

/// Whether a plugin loads: the host handed something over, speaks this layer's version
/// of the interface and gave its function provider.
pub open spec fn spec_plugin_loads(rec: Option<PluginInfo>) -> bool {
    rec matches Some(info) && info.caller_version == REAPER_PLUGIN_VERSION && info.has_get_func
}

/// What a plugin's entry point answers to the host: 1 if the plugin loads, else 0.
pub fn plugin_entry_result(rec: Option<PluginInfo>) -> (answer: i32)
    ensures
        answer == if spec_plugin_loads(rec) {
            1i32
        } else {
            0i32
        },
{
    let info = match rec {
        None => {
            return 0;
        },
        Some(info) => info,
    };
    if info.caller_version != REAPER_PLUGIN_VERSION {
        return 0;
    }
    if info.has_get_func {
        1
    } else {
        0
    }
}

/// The entry points of the host that this layer goes through.
#[derive(Clone, Copy, Debug, PartialEq, Eq, Structural, Hash)]
pub enum HostFunction {
    EnumProjects,
    GetTrack,
    ShowConsoleMsg,
    ValidatePtr2,
    GetSetMediaTrackInfo,
    PluginRegister,
    ClearConsole,
    CSurfOnInputMonitorChangeEx,
    GetTrackAutomationMode,
    GetGlobalAutomationOverride,
    StuffMidiMessage,
    GetLastTouchedFx,
    GetFocusedFx,
    SetMediaTrackInfoValue,
    MainOnCommandEx,
    TrackFxGetCount,
}

/// Number of entry points in [`HostFunction`].
pub const HOST_FUNCTION_COUNT: usize = 16;

impl HostFunction {
    /// Position of the entry point in a function table.
    pub open spec fn spec_index(self) -> usize {
        match self {
            HostFunction::EnumProjects => 0,
            HostFunction::GetTrack => 1,
            HostFunction::ShowConsoleMsg => 2,
            HostFunction::ValidatePtr2 => 3,
            HostFunction::GetSetMediaTrackInfo => 4,
            HostFunction::PluginRegister => 5,
            HostFunction::ClearConsole => 6,
            HostFunction::CSurfOnInputMonitorChangeEx => 7,
            HostFunction::GetTrackAutomationMode => 8,
            HostFunction::GetGlobalAutomationOverride => 9,
            HostFunction::StuffMidiMessage => 10,
            HostFunction::GetLastTouchedFx => 11,
            HostFunction::GetFocusedFx => 12,
            HostFunction::SetMediaTrackInfoValue => 13,
            HostFunction::MainOnCommandEx => 14,
            HostFunction::TrackFxGetCount => 15,
        }
    }

    #[verifier::when_used_as_spec(spec_index)]
    pub fn index(self) -> (i: usize)
        ensures
            i == self.spec_index(),
            i < HOST_FUNCTION_COUNT,
    {
        match self {
            HostFunction::EnumProjects => 0,
            HostFunction::GetTrack => 1,
            HostFunction::ShowConsoleMsg => 2,
            HostFunction::ValidatePtr2 => 3,
            HostFunction::GetSetMediaTrackInfo => 4,
            HostFunction::PluginRegister => 5,
            HostFunction::ClearConsole => 6,
            HostFunction::CSurfOnInputMonitorChangeEx => 7,
            HostFunction::GetTrackAutomationMode => 8,
            HostFunction::GetGlobalAutomationOverride => 9,
            HostFunction::StuffMidiMessage => 10,
            HostFunction::GetLastTouchedFx => 11,
            HostFunction::GetFocusedFx => 12,
            HostFunction::SetMediaTrackInfoValue => 13,
            HostFunction::MainOnCommandEx => 14,
            HostFunction::TrackFxGetCount => 15,
        }
    }

    /// The entry point at a position, if the position is one.
    pub open spec fn spec_from_index(i: usize) -> Option<HostFunction> {
        if i == 0 {
            Some(HostFunction::EnumProjects)
        } else if i == 1 {
            Some(HostFunction::GetTrack)
        } else if i == 2 {
            Some(HostFunction::ShowConsoleMsg)
        } else if i == 3 {
            Some(HostFunction::ValidatePtr2)
        } else if i == 4 {
            Some(HostFunction::GetSetMediaTrackInfo)
        } else if i == 5 {
            Some(HostFunction::PluginRegister)
        } else if i == 6 {
            Some(HostFunction::ClearConsole)
        } else if i == 7 {
            Some(HostFunction::CSurfOnInputMonitorChangeEx)
        } else if i == 8 {
            Some(HostFunction::GetTrackAutomationMode)
        } else if i == 9 {
            Some(HostFunction::GetGlobalAutomationOverride)
        } else if i == 10 {
            Some(HostFunction::StuffMidiMessage)
        } else if i == 11 {
            Some(HostFunction::GetLastTouchedFx)
        } else if i == 12 {
            Some(HostFunction::GetFocusedFx)
        } else if i == 13 {
            Some(HostFunction::SetMediaTrackInfoValue)
        } else if i == 14 {
            Some(HostFunction::MainOnCommandEx)
        } else if i == 15 {
            Some(HostFunction::TrackFxGetCount)
        } else {
            None
        }
    }

    #[verifier::when_used_as_spec(spec_from_index)]
    pub fn from_index(i: usize) -> (f: Option<HostFunction>)
        ensures
            f == HostFunction::spec_from_index(i),
            f is Some <==> i < HOST_FUNCTION_COUNT,
            f matches Some(g) ==> g.spec_index() == i,
    {
        if i == 0 {
            Some(HostFunction::EnumProjects)
        } else if i == 1 {
            Some(HostFunction::GetTrack)
        } else if i == 2 {
            Some(HostFunction::ShowConsoleMsg)
        } else if i == 3 {
            Some(HostFunction::ValidatePtr2)
        } else if i == 4 {
            Some(HostFunction::GetSetMediaTrackInfo)
        } else if i == 5 {
            Some(HostFunction::PluginRegister)
        } else if i == 6 {
            Some(HostFunction::ClearConsole)
        } else if i == 7 {
            Some(HostFunction::CSurfOnInputMonitorChangeEx)
        } else if i == 8 {
            Some(HostFunction::GetTrackAutomationMode)
        } else if i == 9 {
            Some(HostFunction::GetGlobalAutomationOverride)
        } else if i == 10 {
            Some(HostFunction::StuffMidiMessage)
        } else if i == 11 {
            Some(HostFunction::GetLastTouchedFx)
        } else if i == 12 {
            Some(HostFunction::GetFocusedFx)
        } else if i == 13 {
            Some(HostFunction::SetMediaTrackInfoValue)
        } else if i == 14 {
            Some(HostFunction::MainOnCommandEx)
        } else if i == 15 {
            Some(HostFunction::TrackFxGetCount)
        } else {
            None
        }
    }

    /// The key under which the host hands out the entry point.
    pub open spec fn spec_name(self) -> &'static str {
        match self {
            HostFunction::EnumProjects => "EnumProjects",
            HostFunction::GetTrack => "GetTrack",
            HostFunction::ShowConsoleMsg => "ShowConsoleMsg",
            HostFunction::ValidatePtr2 => "ValidatePtr2",
            HostFunction::GetSetMediaTrackInfo => "GetSetMediaTrackInfo",
            HostFunction::PluginRegister => "plugin_register",
            HostFunction::ClearConsole => "ClearConsole",
            HostFunction::CSurfOnInputMonitorChangeEx => "CSurf_OnInputMonitorChangeEx",
            HostFunction::GetTrackAutomationMode => "GetTrackAutomationMode",
            HostFunction::GetGlobalAutomationOverride => "GetGlobalAutomationOverride",
            HostFunction::StuffMidiMessage => "StuffMIDIMessage",
            HostFunction::GetLastTouchedFx => "GetLastTouchedFX",
            HostFunction::GetFocusedFx => "GetFocusedFX",
            HostFunction::SetMediaTrackInfoValue => "SetMediaTrackInfo_Value",
            HostFunction::MainOnCommandEx => "Main_OnCommandEx",
            HostFunction::TrackFxGetCount => "TrackFX_GetCount",
        }
    }

    #[verifier::when_used_as_spec(spec_name)]
    pub fn name(self) -> (key: &'static str)
        ensures
            key == self.spec_name(),
    {
        match self {
            HostFunction::EnumProjects => "EnumProjects",
            HostFunction::GetTrack => "GetTrack",
            HostFunction::ShowConsoleMsg => "ShowConsoleMsg",
            HostFunction::ValidatePtr2 => "ValidatePtr2",
            HostFunction::GetSetMediaTrackInfo => "GetSetMediaTrackInfo",
            HostFunction::PluginRegister => "plugin_register",
            HostFunction::ClearConsole => "ClearConsole",
            HostFunction::CSurfOnInputMonitorChangeEx => "CSurf_OnInputMonitorChangeEx",
            HostFunction::GetTrackAutomationMode => "GetTrackAutomationMode",
            HostFunction::GetGlobalAutomationOverride => "GetGlobalAutomationOverride",
            HostFunction::StuffMidiMessage => "StuffMIDIMessage",
            HostFunction::GetLastTouchedFx => "GetLastTouchedFX",
            HostFunction::GetFocusedFx => "GetFocusedFX",
            HostFunction::SetMediaTrackInfoValue => "SetMediaTrackInfo_Value",
            HostFunction::MainOnCommandEx => "Main_OnCommandEx",
            HostFunction::TrackFxGetCount => "TrackFX_GetCount",
        }
    }
}

/// The host's function table as it was resolved at start-up: one address per entry point,
/// zero where the host did not know the name.
pub struct FunctionTable {
    pub addresses: Vec<isize>,
}

impl FunctionTable {
    pub open spec fn wf(&self) -> bool {
        self.addresses@.len() == HOST_FUNCTION_COUNT
    }

    /// The address that was resolved for an entry point, zero if there was none.
    pub open spec fn spec_address(&self, function: HostFunction) -> isize {
        self.addresses@[function.spec_index() as int]
    }

    /// Whether calls through the entry point are possible.
    pub open spec fn spec_has(&self, function: HostFunction) -> bool {
        self.spec_address(function) != 0
    }

    /// Asks the provider once for every entry point, in table order, and keeps the answers.
    pub fn with_all_functions_loaded<F: Fn(&'static str) -> isize>(get_func: &F) -> (table:
        FunctionTable)
        requires
            forall|f: HostFunction| call_requires(get_func, (f.spec_name(),)),
        ensures
            table.wf(),
            forall|f: HostFunction|
                call_ensures(get_func, (f.spec_name(),), #[trigger] table.spec_address(f)),
    {
        let mut addresses: Vec<isize> = Vec::new();
        let mut i: usize = 0;
        while i < HOST_FUNCTION_COUNT
            invariant
                i <= HOST_FUNCTION_COUNT,
                addresses@.len() == i,
                forall|f: HostFunction| call_requires(get_func, (f.spec_name(),)),
                forall|f: HostFunction|
                    f.spec_index() < i ==> call_ensures(
                        get_func,
                        (f.spec_name(),),
                        #[trigger] addresses@[f.spec_index() as int],
                    ),
            decreases HOST_FUNCTION_COUNT - i,
        {
            match HostFunction::from_index(i) {
                Some(function) => {
                    let address = get_func(function.name());
                    addresses.push(address);
                },
                None => {
                    addresses.push(0);
                },
            }
            i = i + 1;
        }
        FunctionTable { addresses }
    }

    /// A table with no entry point at all.
    pub fn empty() -> (table: FunctionTable)
        ensures
            table.wf(),
            forall|f: HostFunction| !table.spec_has(f),
    {
        let mut addresses: Vec<isize> = Vec::new();
        let mut i: usize = 0;
        while i < HOST_FUNCTION_COUNT
            invariant
                i <= HOST_FUNCTION_COUNT,
                addresses@.len() == i,
                forall|j: int| 0 <= j < i ==> addresses@[j] == 0,
            decreases HOST_FUNCTION_COUNT - i,
        {
            addresses.push(0);
            i = i + 1;
        }
        FunctionTable { addresses }
    }

    #[verifier::when_used_as_spec(spec_address)]
    pub fn address(&self, function: HostFunction) -> (a: isize)
        requires
            self.wf(),
        ensures
            a == self.spec_address(function),
    {
        self.addresses[function.index()]
    }

    #[verifier::when_used_as_spec(spec_has)]
    pub fn has(&self, function: HostFunction) -> (b: bool)
        requires
            self.wf(),
        ensures
            b == self.spec_has(function),
    {
        self.addresses[function.index()] != 0
    }
}

} // verus!
