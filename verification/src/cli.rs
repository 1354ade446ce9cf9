//! The decisions of the commands `connect` and `obfuscation`.

use crate::net::SocketAddress;
use crate::obfuscation::ObfuscatorType;
use vstd::prelude::*;

verus! {

/// Why a command failed.
#[derive(Clone, Copy, Debug, PartialEq, Eq, Structural)]
pub enum CommandError {
    /// The daemon reported an error state.
    CommandFailed,
    /// The daemon stopped telling its state.
    StatusListenerFailed,
    /// The custom obfuscator is chosen before its settings are set.
    CustomSettingsMissing,
    /// No obfuscator has this name.
    UnknownObfuscator,
}

/// The state of the tunnel.
#[derive(Clone, Copy, Debug, PartialEq, Eq, Structural)]
pub enum TunnelState {
    Disconnected,
    Connecting,
    Connected,
    Disconnecting,
    Error,
}

/// What the command does after it has heard of a state.
#[derive(Clone, Copy, Debug, PartialEq, Eq)]
pub enum Listen {
    /// Wait for the next state.
    Continue,
    /// End with this outcome.
    Finish(Result<(), CommandError>),
}

/// The command that asks the daemon to connect.
#[derive(Clone, Copy, Debug, PartialEq, Eq, Structural)]
pub struct Connect;

impl Connect {
    /// The name of the command.
    pub fn name(&self) -> (name: &'static str)
        ensures
            name@ == "connect"@,
    {
        "connect"
    }

    /// Whether the command listens for states after its request: it does
    /// where it was asked to wait and the daemon has begun to connect.
    pub fn listens(wait: bool, accepted: bool) -> (listen: bool)
        ensures
            listen == (wait && accepted),
    {
        wait && accepted
    }

    /// What the command does after it has heard of `state`, which is `None`
    /// where the daemon has stopped telling: it ends once the tunnel is
    /// connected or in an error state, and fails where no state comes.
    pub fn run(state: Option<TunnelState>) -> (next: Listen)
        ensures
            next == match state {
                Some(TunnelState::Connected) => Listen::Finish(Ok(())),
                Some(TunnelState::Error) => Listen::Finish(Err(CommandError::CommandFailed)),
                Some(_) => Listen::Continue,
                None => Listen::Finish(Err(CommandError::StatusListenerFailed)),
            },
    {
        match state {
            Some(TunnelState::Connected) => Listen::Finish(Ok(())),
            Some(TunnelState::Error) => Listen::Finish(Err(CommandError::CommandFailed)),
            Some(_) => Listen::Continue,
            None => Listen::Finish(Err(CommandError::StatusListenerFailed)),
        }
    }
}

/// The settings of a custom obfuscator.
#[derive(Clone, Copy, Debug, PartialEq, Eq, Structural)]
pub struct CustomObfuscatorSettings {
    pub address: SocketAddress,
    pub endpoint: SocketAddress,
}

/// Which obfuscator is in use, and the settings of the custom one.
#[derive(Clone, Copy, Debug, PartialEq, Eq, Structural)]
pub struct ObfuscationSettings {
    pub active_obfuscator: Option<ObfuscatorType>,
    pub custom_obfuscator_settings: Option<CustomObfuscatorSettings>,
}

/// The command that manages the use of obfuscators.
#[derive(Clone, Copy, Debug, PartialEq, Eq, Structural)]
pub struct Obfuscation;

/// The obfuscator that `name` stands for, where it stands for one or for
/// none at all.
pub open spec fn obfuscator_named(name: Seq<char>) -> Option<Option<ObfuscatorType>> {
    if name == "none"@ {
        Some(None)
    } else if name == "mock"@ {
        Some(Some(ObfuscatorType::Mock))
    } else if name == "udp2tcp"@ {
        Some(Some(ObfuscatorType::Udp2Tcp))
    } else if name == "custom"@ {
        Some(Some(ObfuscatorType::Custom))
    } else {
        None
    }
}

/// The settings once the obfuscator `name` is chosen. The custom
/// obfuscator can be chosen only after its settings are set.
pub open spec fn settings_with_type(settings: ObfuscationSettings, name: Seq<char>) -> Result<
    ObfuscationSettings,
    CommandError,
> {
    match obfuscator_named(name) {
        None => Err(CommandError::UnknownObfuscator),
        Some(active) => if active == Some(ObfuscatorType::Custom)
            && settings.custom_obfuscator_settings is None {
            Err(CommandError::CustomSettingsMissing)
        } else {
            Ok(
                ObfuscationSettings {
                    active_obfuscator: active,
                    custom_obfuscator_settings: settings.custom_obfuscator_settings,
                },
            )
        },
    }
}

/// Whether the two texts are the same.
fn same_text(a: &str, b: &str) -> (same: bool)
    ensures
        same == (a@ == b@),
{
    String::from_str(a) == String::from_str(b)
}

impl Obfuscation {
    /// The name of the command.
    pub fn name(&self) -> (name: &'static str)
        ensures
            name@ == "obfuscation"@,
    {
        "obfuscation"
    }

    /// The names that choose an obfuscator, or none.
    pub fn type_names() -> (names: [&'static str; 4])
        ensures
            names@.len() == 4,
            names@[0]@ == "none"@,
            names@[1]@ == "mock"@,
            names@[2]@ == "udp2tcp"@,
            names@[3]@ == "custom"@,
    {
        ["none", "mock", "udp2tcp", "custom"]
    }

    /// The obfuscator that `name` stands for.
    pub fn parse_type(name: &str) -> (parsed: Option<Option<ObfuscatorType>>)
        ensures
            parsed == obfuscator_named(name@),
    {
        if same_text(name, "none") {
            Some(None)
        } else if same_text(name, "mock") {
            Some(Some(ObfuscatorType::Mock))
        } else if same_text(name, "udp2tcp") {
            Some(Some(ObfuscatorType::Udp2Tcp))
        } else if same_text(name, "custom") {
            Some(Some(ObfuscatorType::Custom))
        } else {
            None
        }
    }

    /// The settings once the obfuscator `name` is chosen.
    pub fn handle_set(settings: ObfuscationSettings, name: &str) -> (changed: Result<
        ObfuscationSettings,
        CommandError,
    >)
        ensures
            changed == settings_with_type(settings, name@),
    {
        match Self::parse_type(name) {
            None => Err(CommandError::UnknownObfuscator),
            Some(active) => {
                let custom = match active {
                    Some(ObfuscatorType::Custom) => true,
                    _ => false,
                };
                if custom && settings.custom_obfuscator_settings.is_none() {
                    Err(CommandError::CustomSettingsMissing)
                } else {
                    Ok(
                        ObfuscationSettings {
                            active_obfuscator: active,
                            custom_obfuscator_settings: settings.custom_obfuscator_settings,
                        },
                    )
                }
            },
        }
    }

    /// The settings once the custom obfuscator has these settings.
    pub fn handle_custom_settings(
        settings: ObfuscationSettings,
        address: SocketAddress,
        endpoint: SocketAddress,
    ) -> (changed: ObfuscationSettings)
        ensures
            changed == (ObfuscationSettings {
                active_obfuscator: settings.active_obfuscator,
                custom_obfuscator_settings: Some(CustomObfuscatorSettings { address, endpoint }),
            }),
    {
        ObfuscationSettings {
            active_obfuscator: settings.active_obfuscator,
            custom_obfuscator_settings: Some(CustomObfuscatorSettings { address, endpoint }),
        }
    }
}

} // verus!
