//! Location of the wallet credential file: the fixed default path under
//! the user's home configuration directory, with the leading tilde
//! expanded. Decoding the file itself is left to the caller, which hands
//! the flow either the credential's public identifier or the failing path.

use vstd::prelude::*;

verus! {

/// Relies on shellexpand::tilde: the result is either the input unchanged
/// (no leading tilde, an unsupported tilde form, or no home directory), or
/// the home directory followed by everything after the leading tilde. The
/// home directory comes from the environment, so nothing more is promised
/// of which of the two comes back.
#[verifier::external_body]
fn expand_tilde(path: &str) -> (r: String)
    ensures
        r@ == path@ || (path@.len() > 0 && path@[0] == '~' && exists|h: Seq<char>|
            r@ == h + path@.subrange(1, path@.len() as int)),
{
    shellexpand::tilde(path).into_owned()
}

/// The default credential file path: the fixed location under the user's
/// home configuration directory. Either the home directory could not be
/// resolved and the tilde is left as written, or the path is the resolved
/// home directory followed by the fixed suffix.
pub fn default_keypair_path() -> (p: String)
    ensures
        p@ == "~/.config/solana/id.json"@ || exists|h: Seq<char>|
            p@ == h + "/.config/solana/id.json"@,
{
    let p = expand_tilde("~/.config/solana/id.json");
    proof {
        reveal_strlit("~/.config/solana/id.json");
        reveal_strlit("/.config/solana/id.json");
        let full = "~/.config/solana/id.json"@;
        let suffix = "/.config/solana/id.json"@;
        assert(full.subrange(1, full.len() as int) =~= suffix);
        if p@ != full {
            let h0 = choose|h: Seq<char>| p@ == h + full.subrange(1, full.len() as int);
            assert(p@ == h0 + suffix);
        }
    }
    p
}

} // verus!
