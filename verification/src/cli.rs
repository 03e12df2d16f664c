//! What the node reads from its command line: the provider it runs as and the
//! way its development chain seals blocks.
use vstd::prelude::*;

verus! {

/// Kind of storage provider.
#[derive(Debug, Clone, Copy, PartialEq, Eq, Structural)]
pub enum ProviderType {
    /// Main Storage Provider
    Msp,
    /// Backup Storage Provider
    Bsp,
}

/// The provider a node runs as, once both of its settings are known.
#[derive(Debug, Clone)]
pub struct ProviderOptions {
    /// Kind of provider.
    pub provider_type: ProviderType,
    /// File whose content seeds the node's peer identity.
    pub seed_file: String,
}

/// The provider settings as they come from the command line.
#[derive(Debug)]
pub struct ProviderConfigurations {
    /// Run node as a provider.
    pub provider: bool,
    /// Kind of provider.
    pub provider_type: Option<ProviderType>,
    /// Fixed value to generate a deterministic peer id.
    pub seed_file: Option<String>,
}

impl ProviderConfigurations {
    /// Both settings of a provider are given.
    pub open spec fn complete(&self) -> bool {
        self.provider_type is Some && self.seed_file is Some
    }

    /// Tells whether both settings of a provider are given.
    pub fn is_complete(&self) -> (ok: bool)
        ensures
            ok == self.complete(),
    {
        self.provider_type.is_some() && self.seed_file.is_some()
    }

    /// The provider options, from settings that are complete.
    pub fn provider_options(&self) -> (options: ProviderOptions)
        requires
            self.complete(),
        ensures
            options.provider_type == self.provider_type->0,
            options.seed_file == self.seed_file->0,
    {
        let provider_type = match self.provider_type {
            Some(kind) => kind,
            None => ProviderType::Bsp,
        };
        let seed_file = match &self.seed_file {
            Some(path) => path.clone(),
            None => String::new(),
        };
        ProviderOptions { provider_type, seed_file }
    }
}

/// Block authoring scheme to be used by the dev service.
#[derive(Debug, Clone, Copy, PartialEq, Eq, Structural)]
pub enum Sealing {
    /// Author a block immediately upon receiving a transaction into the transaction pool
    Instant,
    /// Author a block upon receiving an RPC command
    Manual,
    /// Author blocks at a regular interval specified in milliseconds
    Interval(u64),
}

/// Whether `c` is one of the ten decimal digits.
pub open spec fn is_decimal_digit(c: char) -> bool {
    '0' as u32 <= c as u32 && c as u32 <= '9' as u32
}

/// The number that a string of decimal digits stands for.
pub open spec fn decimal_value(digits: Seq<char>) -> nat
    decreases digits.len(),
{
    if digits.len() == 0 {
        0
    } else {
        decimal_value(digits.drop_last()) * 10 + (digits.last() as u32 - '0' as u32) as nat
    }
}

/// A string without its plus sign, if it starts with one.
pub open spec fn unsigned_part(s: Seq<char>) -> Seq<char> {
    if s.len() > 0 && s[0] == '+' {
        s.subrange(1, s.len() as int)
    } else {
        s
    }
}

/// Whether every character of a string is a decimal digit.
pub open spec fn all_decimal_digits(digits: Seq<char>) -> bool {
    forall|i: int| 0 <= i < digits.len() ==> is_decimal_digit(#[trigger] digits[i])
}

/// What a string gives when it is read as a decimal `u64`: the number it
/// stands for, where it is a string of one or more decimal digits, after an
/// optional plus sign, whose number fits in 64 bits.
pub open spec fn spec_parse_u64(s: Seq<char>) -> Option<u64> {
    let digits = unsigned_part(s);
    if digits.len() == 0 || !all_decimal_digits(digits) || decimal_value(digits) > u64::MAX {
        None
    } else {
        Some(decimal_value(digits) as u64)
    }
}

/// Reads a decimal number with `u64::from_str_radix`.
///
/// Trusted: the standard library accepts an optional plus sign followed by
/// decimal digits only, and refuses the empty string, a sign alone, any other
/// character, and a number beyond 64 bits.
#[verifier::external_body]
pub(crate) fn parse_u64(s: &str) -> (r: Option<u64>)
    ensures
        r == spec_parse_u64(s@),
{
    u64::from_str_radix(s, 10).ok()
}

/// The sealing that a parameter and its reading as a number stand for.
pub open spec fn spec_sealing(s: Seq<char>, millis: Option<u64>) -> Option<Sealing> {
    if s == "instant"@ {
        Some(Sealing::Instant)
    } else if s == "manual"@ {
        Some(Sealing::Manual)
    } else {
        match millis {
            Some(n) => Some(Sealing::Interval(n)),
            None => None,
        }
    }
}

impl Sealing {
    /// Chooses the sealing for a parameter, given what the parameter reads as
    /// when taken for a number of milliseconds.
    pub fn from_parts(s: &str, millis: Option<u64>) -> (r: Result<Sealing, String>)
        ensures
            match spec_sealing(s@, millis) {
                Some(sealing) => r == Ok::<Sealing, String>(sealing),
                None => r is Err && r->Err_0@ == "couldn't decode sealing param"@,
            },
    {
        let given: String = s.to_owned();
        let instant: String = "instant".to_owned();
        let manual: String = "manual".to_owned();
        if given == instant {
            Ok(Sealing::Instant)
        } else if given == manual {
            Ok(Sealing::Manual)
        } else {
            match millis {
                Some(n) => Ok(Sealing::Interval(n)),
                None => Err("couldn't decode sealing param".to_owned()),
            }
        }
    }

    /// Reads a sealing parameter: `instant`, `manual`, or an interval in
    /// milliseconds.
    pub fn from_str(s: &str) -> (r: Result<Sealing, String>)
        ensures
            match spec_sealing(s@, spec_parse_u64(s@)) {
                Some(sealing) => r == Ok::<Sealing, String>(sealing),
                None => r is Err && r->Err_0@ == "couldn't decode sealing param"@,
            },
    {
        Sealing::from_parts(s, parse_u64(s))
    }
}

impl std::str::FromStr for Sealing {
    type Err = String;

    /// Reads a sealing parameter as [`Sealing::from_str`] does.
    fn from_str(s: &str) -> (r: Result<Self, Self::Err>)
        ensures
            match spec_sealing(s@, spec_parse_u64(s@)) {
                Some(sealing) => r == Ok::<Sealing, String>(sealing),
                None => r is Err && r->Err_0@ == "couldn't decode sealing param"@,
            },
    {
        Sealing::from_str(s)
    }
}

} // verus!
