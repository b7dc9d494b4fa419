//! The version record: an immutable value holding a build's numeric version
//! and optional provenance, with its assembler and its display rendering.

use crate::channel::channel_from_override;
use crate::numeral::{all_digits, append_decimal, parse_u16, parse_u8, spec_decimal,
    spec_decimal_val};
use crate::trim::{spec_trim, trim_str};
use vstd::prelude::*;
use vstd::string::StringExecFns;

verus! {

/// A build's version identity: the semantic-version numbers, always present,
/// and three optional decorations gathered from the build environment.
pub struct VersionInfo {
    pub major: u8,
    pub minor: u8,
    pub patch: u16,
    pub host_compiler: Option<String>,
    pub commit_hash: Option<String>,
    pub commit_date: Option<String>,
}

/// The characters of an optional string; an absent value reads as empty.
pub open spec fn spec_opt_chars(o: Option<String>) -> Seq<char> {
    match o {
        Some(s) => s@,
        None => Seq::<char>::empty(),
    }
}

/// The rendered version line: the tool name and the dotted numeric version,
/// followed — only when a commit hash is present — by a parenthetical holding
/// the trimmed hash and the trimmed date (empty when the date is absent).
pub open spec fn spec_display(v: VersionInfo) -> Seq<char> {
    let base = "clippy "@ + spec_decimal(v.major as nat) + "."@ + spec_decimal(v.minor as nat)
        + "."@ + spec_decimal(v.patch as nat);
    if v.commit_hash is Some {
        base + " ("@ + spec_trim((v.commit_hash->0)@) + " "@ + spec_trim(
            spec_opt_chars(v.commit_date),
        ) + ")"@
    } else {
        base
    }
}

impl VersionInfo {
    /// Builds the record from already-validated parts; every field is stored
    /// exactly as given.
    pub fn new(
        major: u8,
        minor: u8,
        patch: u16,
        host_compiler: Option<String>,
        commit_hash: Option<String>,
        commit_date: Option<String>,
    ) -> (r: VersionInfo)
        ensures
            r.major == major,
            r.minor == minor,
            r.patch == patch,
            r.host_compiler == host_compiler,
            r.commit_hash == commit_hash,
            r.commit_date == commit_date,
    {
        VersionInfo { major, minor, patch, host_compiler, commit_hash, commit_date }
    }

    /// Renders the record as one line of text, exactly `spec_display`.
    pub fn display_string(&self) -> (r: String)
        ensures
            r@ == spec_display(*self),
    {
        let mut out = String::new();
        out.append("clippy ");
        append_decimal(&mut out, self.major as u16);
        out.append(".");
        append_decimal(&mut out, self.minor as u16);
        out.append(".");
        append_decimal(&mut out, self.patch);
        match &self.commit_hash {
            Some(hash) => {
                out.append(" (");
                let trimmed_hash = trim_str(hash.as_str());
                out.append(trimmed_hash);
                out.append(" ");
                match &self.commit_date {
                    Some(date) => {
                        let trimmed_date = trim_str(date.as_str());
                        out.append(trimmed_date);
                    },
                    None => {
                        proof {
                            assert(spec_trim(Seq::<char>::empty()) =~= Seq::<char>::empty());
                        }
                    },
                }
                out.append(")");
            },
            None => {},
        }
        proof {
            assert(out@ =~= spec_display(*self));
        }
        out
    }
}

/// The assembler: reads the three required numeric components from decimal
/// text, asks the channel detector for `host_compiler`, and stores the two
/// optional commit facts as given. Returns `None` exactly when a required
/// component is absent, malformed or out of range — the fatal tier.
pub fn assemble(
    major: &str,
    minor: &str,
    patch: &str,
    channel_override: Option<String>,
    commit_hash: Option<String>,
    commit_date: Option<String>,
) -> (r: Option<VersionInfo>)
    ensures
        match r {
            Some(v) => {
                &&& major@.len() > 0 && all_digits(major@) && spec_decimal_val(major@) <= u8::MAX
                &&& minor@.len() > 0 && all_digits(minor@) && spec_decimal_val(minor@) <= u8::MAX
                &&& patch@.len() > 0 && all_digits(patch@) && spec_decimal_val(patch@) <= u16::MAX
                &&& v.major as nat == spec_decimal_val(major@)
                &&& v.minor as nat == spec_decimal_val(minor@)
                &&& v.patch as nat == spec_decimal_val(patch@)
                &&& v.host_compiler is Some
                &&& channel_override is Some ==> v.host_compiler == channel_override
                &&& channel_override is None ==> (v.host_compiler->0)@ == "nightly"@
                &&& v.commit_hash == commit_hash
                &&& v.commit_date == commit_date
            },
            None => {
                ||| major@.len() == 0 || !all_digits(major@) || spec_decimal_val(major@) > u8::MAX
                ||| minor@.len() == 0 || !all_digits(minor@) || spec_decimal_val(minor@) > u8::MAX
                ||| patch@.len() == 0 || !all_digits(patch@) || spec_decimal_val(patch@)
                    > u16::MAX
            },
        },
{
    let major_v = match parse_u8(major) {
        Some(v) => v,
        None => { return None },
    };
    let minor_v = match parse_u8(minor) {
        Some(v) => v,
        None => { return None },
    };
    let patch_v = match parse_u16(patch) {
        Some(v) => v,
        None => { return None },
    };
    let host_compiler = channel_from_override(channel_override);
    Some(VersionInfo::new(major_v, minor_v, patch_v, host_compiler, commit_hash, commit_date))
}

/// Rendering is a pure function of the record: any two renderings of the same
/// `VersionInfo` are the same text.
pub proof fn lemma_display_deterministic(v: VersionInfo, r1: Seq<char>, r2: Seq<char>)
    requires
        r1 == spec_display(v),
        r2 == spec_display(v),
    ensures
        r1 == r2,
{
}

} // verus!
