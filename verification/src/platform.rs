//! The platform identifier: operating system and architecture, joined by a hyphen.

use vstd::prelude::*;
use vstd::string::*;

verus! {

/// The character that joins the two parts of a platform identifier.
pub const SEPARATOR: char = '-';

/// The identifier made of an operating-system name and an architecture name.
pub open spec fn platform_identifier(os: Seq<char>, arch: Seq<char>) -> Seq<char> {
    os + seq![SEPARATOR] + arch
}

/// Joins the operating-system name and the architecture name of the running
/// binary into its platform identifier, such as `linux-x86_64`.
pub fn get_platform(os: &str, arch: &str) -> (id: String)
    ensures
        id@ == platform_identifier(os@, arch@),
{
    let mut id = String::from_str(os);
    proof {
        reveal_strlit("-");
    }
    id.append("-");
    id.append(arch);
    assert("-"@ =~= seq![SEPARATOR]);
    id
}

/// A name that can stand on either side of the separator: not empty, and
/// without a separator of its own.
pub open spec fn is_name(part: Seq<char>) -> bool {
    part.len() > 0 && !part.contains(SEPARATOR)
}

/// The identifier of two names is not empty and holds exactly one separator,
/// which stands between the operating-system name and the architecture name.
pub proof fn lemma_identifier_has_one_separator(os: Seq<char>, arch: Seq<char>)
    requires
        is_name(os),
        is_name(arch),
    ensures
        platform_identifier(os, arch).len() == os.len() + 1 + arch.len(),
        platform_identifier(os, arch).len() > 0,
        forall|i: int|
            0 <= i < platform_identifier(os, arch).len() ==> (platform_identifier(os, arch)[i]
                == SEPARATOR <==> i == os.len()),
        platform_identifier(os, arch).subrange(0, os.len() as int) == os,
        platform_identifier(os, arch).subrange(
            os.len() as int + 1,
            platform_identifier(os, arch).len() as int,
        ) == arch,
{
    let id = platform_identifier(os, arch);
    assert forall|i: int| 0 <= i < id.len() implies (id[i] == SEPARATOR <==> i == os.len()) by {
        if i < os.len() {
            assert(os.contains(os[i]));
        } else if i > os.len() {
            assert(arch.contains(arch[i - os.len() - 1]));
        }
    }
}

/// Two pairs of names with the same identifier are the same pair.
pub proof fn lemma_identifier_names_unique(
    os: Seq<char>,
    arch: Seq<char>,
    other_os: Seq<char>,
    other_arch: Seq<char>,
)
    requires
        is_name(os),
        is_name(arch),
        is_name(other_os),
        is_name(other_arch),
        platform_identifier(os, arch) == platform_identifier(other_os, other_arch),
    ensures
        os == other_os,
        arch == other_arch,
{
    lemma_identifier_has_one_separator(os, arch);
    lemma_identifier_has_one_separator(other_os, other_arch);
    let id = platform_identifier(os, arch);
    assert(id[os.len() as int] == SEPARATOR);
    assert(id[other_os.len() as int] == SEPARATOR);
}

} // verus!
