//! The settings, and how they are read from the text of configuration
//! variables.
//!
//! The caller looks the variables up; this module checks that each is there
//! and that the numbers among them are numbers.

use vstd::prelude::*;
use vstd::string::StrSliceExecFns;

verus! {

/// The settings. They are loaded once and never changed.
#[derive(Clone, Debug)]
pub struct Env {
    pub server_path: String,
    pub run_command: String,
    pub rcon_password: String,
    pub address_hint: String,
    pub webserver_port: u16,
    pub minecraft_port: u16,
    pub rcon_port: u16,
    /// In seconds.
    pub minecraft_idle_timeout: u64,
}

/// What is wrong with the configuration: a variable that is not set, or one
/// whose text is not a number of the width asked for.
#[derive(Clone, Copy, Debug, PartialEq, Eq, Structural)]
pub enum EnvError {
    ServerPath,
    RunCommand,
    RconPassword,
    AddressHint,
    WebserverPort,
    MinecraftPort,
    RconPort,
    MinecraftIdleTimeout,
    WebserverPortValue,
    MinecraftPortValue,
    RconPortValue,
    MinecraftIdleTimeoutValue,
}

/// The text of each configuration variable, `None` where it is not set.
#[derive(Clone, Debug)]
pub struct EnvVars {
    pub server_path: Option<String>,
    pub run_command: Option<String>,
    pub rcon_password: Option<String>,
    pub address_hint: Option<String>,
    pub webserver_port: Option<String>,
    pub minecraft_port: Option<String>,
    pub rcon_port: Option<String>,
    pub minecraft_idle_timeout: Option<String>,
}

/// The value of a decimal digit, `None` for any other character.
pub open spec fn digit(c: char) -> Option<nat> {
    if '0' <= c <= '9' {
        Some((c as u32 - '0' as u32) as nat)
    } else {
        None
    }
}

/// The number that a run of decimal digits writes, the empty run writing
/// zero; `None` where a character is no digit.
pub open spec fn digits_value(digits: Seq<char>) -> Option<nat>
    decreases digits.len(),
{
    if digits.len() == 0 {
        Some(0)
    } else {
        match (digits_value(digits.drop_last()), digit(digits.last())) {
            (Some(high), Some(low)) => Some(high * 10 + low),
            _ => None,
        }
    }
}

/// The digits of a number's text: the text without the plus sign that may
/// stand in front.
pub open spec fn unsigned_part(text: Seq<char>) -> Seq<char> {
    if text.len() > 0 && text[0] == '+' {
        text.drop_first()
    } else {
        text
    }
}

/// The number that `text` writes, if it writes one that is no larger than
/// `max`: an optional plus sign, then one decimal digit or more, and nothing
/// else.
pub open spec fn decimal(text: Seq<char>, max: nat) -> Option<nat> {
    let digits = unsigned_part(text);
    if digits.len() == 0 {
        None
    } else {
        match digits_value(digits) {
            Some(value) => if value <= max {
                Some(value)
            } else {
                None
            },
            None => None,
        }
    }
}

/// A longer run of digits writes no smaller a number, and a run with a
/// character in it that is no digit writes none however it goes on.
proof fn lemma_value_of_prefix(digits: Seq<char>, len: int)
    requires
        0 <= len <= digits.len(),
    ensures
        digits_value(digits.take(len)) is None ==> digits_value(digits) is None,
        digits_value(digits) matches Some(whole) ==> digits_value(digits.take(len))->0 <= whole,
    decreases digits.len() - len,
{
    if len == digits.len() {
        assert(digits.take(len) =~= digits);
    } else {
        assert(digits.drop_last().take(len) =~= digits.take(len));
        lemma_value_of_prefix(digits.drop_last(), len);
    }
}

/// Reads a number no larger than `max` from its decimal text.
pub fn parse_decimal(text: &str, max: u64) -> (number: Option<u64>)
    ensures
        match number {
            Some(value) => decimal(text@, max as nat) == Some(value as nat),
            None => decimal(text@, max as nat) is None,
        },
{
    let len: usize = text.unicode_len();
    let skip: usize = if len > 0 && text.get_char(0) == '+' {
        1
    } else {
        0
    };
    if len == skip {
        return None;
    }
    let ghost digits = unsigned_part(text@);
    let mut value: u64 = 0;
    let mut at: usize = skip;
    while at < len
        invariant
            skip <= at <= len,
            skip <= 1,
            len == text@.len(),
            digits == unsigned_part(text@),
            digits.len() == len - skip,
            forall|i: int| 0 <= i < digits.len() ==> digits[i] == text@[i + skip],
            digits_value(digits.take(at - skip)) == Some(value as nat),
            value <= max,
        decreases len - at,
    {
        let c: char = text.get_char(at);
        let ghost seen = digits.take(at - skip + 1);
        proof {
            assert(seen.drop_last() =~= digits.take(at - skip));
            assert(seen.last() == c);
            lemma_value_of_prefix(digits, at - skip + 1);
        }
        if c < '0' || c > '9' {
            return None;
        }
        let low: u64 = (c as u32 - '0' as u32) as u64;
        if low > max || value > (max - low) / 10 {
            return None;
        }
        value = value * 10 + low;
        at = at + 1;
    }
    proof {
        assert(digits.take(at - skip) =~= digits);
    }
    Some(value)
}

/// The settings as values of mathematics.
pub struct EnvView {
    pub server_path: Seq<char>,
    pub run_command: Seq<char>,
    pub rcon_password: Seq<char>,
    pub address_hint: Seq<char>,
    pub webserver_port: nat,
    pub minecraft_port: nat,
    pub rcon_port: nat,
    pub minecraft_idle_timeout: nat,
}

impl View for Env {
    type V = EnvView;

    open spec fn view(&self) -> EnvView {
        EnvView {
            server_path: self.server_path@,
            run_command: self.run_command@,
            rcon_password: self.rcon_password@,
            address_hint: self.address_hint@,
            webserver_port: self.webserver_port as nat,
            minecraft_port: self.minecraft_port as nat,
            rcon_port: self.rcon_port as nat,
            minecraft_idle_timeout: self.minecraft_idle_timeout as nat,
        }
    }
}

/// What is wrong with a variable that must hold a number no larger than
/// `max`, if anything is.
pub open spec fn number_defect(
    value: Option<String>,
    max: nat,
    missing: EnvError,
    invalid: EnvError,
) -> Option<EnvError> {
    match value {
        None => Some(missing),
        Some(text) => if decimal(text@, max) is None {
            Some(invalid)
        } else {
            None
        },
    }
}

impl EnvVars {
    /// The first thing that is wrong with the variables, in the order of the
    /// fields, or `None` where all is well.
    pub open spec fn defect(self) -> Option<EnvError> {
        if self.server_path is None {
            Some(EnvError::ServerPath)
        } else if self.run_command is None {
            Some(EnvError::RunCommand)
        } else if self.rcon_password is None {
            Some(EnvError::RconPassword)
        } else if self.address_hint is None {
            Some(EnvError::AddressHint)
        } else if self.webserver_port_defect() is Some {
            self.webserver_port_defect()
        } else if self.minecraft_port_defect() is Some {
            self.minecraft_port_defect()
        } else if self.rcon_port_defect() is Some {
            self.rcon_port_defect()
        } else {
            self.minecraft_idle_timeout_defect()
        }
    }

    pub open spec fn webserver_port_defect(self) -> Option<EnvError> {
        number_defect(
            self.webserver_port,
            u16::MAX as nat,
            EnvError::WebserverPort,
            EnvError::WebserverPortValue,
        )
    }

    pub open spec fn minecraft_port_defect(self) -> Option<EnvError> {
        number_defect(
            self.minecraft_port,
            u16::MAX as nat,
            EnvError::MinecraftPort,
            EnvError::MinecraftPortValue,
        )
    }

    pub open spec fn rcon_port_defect(self) -> Option<EnvError> {
        number_defect(
            self.rcon_port,
            u16::MAX as nat,
            EnvError::RconPort,
            EnvError::RconPortValue,
        )
    }

    pub open spec fn minecraft_idle_timeout_defect(self) -> Option<EnvError> {
        number_defect(
            self.minecraft_idle_timeout,
            u64::MAX as nat,
            EnvError::MinecraftIdleTimeout,
            EnvError::MinecraftIdleTimeoutValue,
        )
    }

    /// The settings that the variables hold, where nothing is wrong with
    /// them.
    pub open spec fn settings(self) -> EnvView {
        EnvView {
            server_path: self.server_path->0@,
            run_command: self.run_command->0@,
            rcon_password: self.rcon_password->0@,
            address_hint: self.address_hint->0@,
            webserver_port: decimal(self.webserver_port->0@, u16::MAX as nat)->0,
            minecraft_port: decimal(self.minecraft_port->0@, u16::MAX as nat)->0,
            rcon_port: decimal(self.rcon_port->0@, u16::MAX as nat)->0,
            minecraft_idle_timeout: decimal(self.minecraft_idle_timeout->0@, u64::MAX as nat)->0,
        }
    }
}

/// The number in a variable that must hold one no larger than `max`.
fn number(value: &Option<String>, max: u64, missing: EnvError, invalid: EnvError) -> (result:
    Result<u64, EnvError>)
    ensures
        match result {
            Ok(n) => number_defect(*value, max as nat, missing, invalid) is None && decimal(
                value->0@,
                max as nat,
            ) == Some(n as nat),
            Err(error) => number_defect(*value, max as nat, missing, invalid) == Some(error),
        },
{
    match value {
        None => Err(missing),
        Some(text) => match parse_decimal(text.as_str(), max) {
            Some(n) => Ok(n),
            None => Err(invalid),
        },
    }
}

/// Builds the settings from the text of the configuration variables.
///
/// Fails with the first thing that is wrong, in the order of the fields: a
/// variable that is not set, or a port that is no decimal number below 65536,
/// or an idle timeout that is no decimal number below 2^64.
pub fn load_env(vars: EnvVars) -> (result: Result<Env, EnvError>)
    ensures
        match result {
            Ok(env) => vars.defect() is None && env@ == vars.settings(),
            Err(error) => vars.defect() == Some(error),
        },
{
    let webserver_port = number(
        &vars.webserver_port,
        0xffff,
        EnvError::WebserverPort,
        EnvError::WebserverPortValue,
    );
    let minecraft_port = number(
        &vars.minecraft_port,
        0xffff,
        EnvError::MinecraftPort,
        EnvError::MinecraftPortValue,
    );
    let rcon_port = number(&vars.rcon_port, 0xffff, EnvError::RconPort, EnvError::RconPortValue);
    let minecraft_idle_timeout = number(
        &vars.minecraft_idle_timeout,
        u64::MAX,
        EnvError::MinecraftIdleTimeout,
        EnvError::MinecraftIdleTimeoutValue,
    );
    let server_path = match vars.server_path {
        Some(text) => text,
        None => { return Err(EnvError::ServerPath); },
    };
    let run_command = match vars.run_command {
        Some(text) => text,
        None => { return Err(EnvError::RunCommand); },
    };
    let rcon_password = match vars.rcon_password {
        Some(text) => text,
        None => { return Err(EnvError::RconPassword); },
    };
    let address_hint = match vars.address_hint {
        Some(text) => text,
        None => { return Err(EnvError::AddressHint); },
    };
    let webserver_port: u16 = match webserver_port {
        Ok(n) => n as u16,
        Err(error) => { return Err(error); },
    };
    let minecraft_port: u16 = match minecraft_port {
        Ok(n) => n as u16,
        Err(error) => { return Err(error); },
    };
    let rcon_port: u16 = match rcon_port {
        Ok(n) => n as u16,
        Err(error) => { return Err(error); },
    };
    let minecraft_idle_timeout: u64 = match minecraft_idle_timeout {
        Ok(n) => n,
        Err(error) => { return Err(error); },
    };
    Ok(
        Env {
            server_path,
            run_command,
            rcon_password,
            address_hint,
            webserver_port,
            minecraft_port,
            rcon_port,
            minecraft_idle_timeout,
        },
    )
}

} // verus!
