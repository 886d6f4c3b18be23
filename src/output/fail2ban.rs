use vstd::prelude::*;
use vstd::string::StringExecFns;

verus! {

/// The ban command for `ip` in `jail`: `set <jail> banip <ip>`.
pub open spec fn ban_command_of(jail: Seq<char>, ip: Seq<char>) -> Seq<char> {
    seq!['s', 'e', 't', ' '] + jail + seq![' ', 'b', 'a', 'n', 'i', 'p', ' '] + ip
}

/// The line sent to the ban socket: the command followed by a newline.
pub open spec fn ban_line_of(jail: Seq<char>, ip: Seq<char>) -> Seq<char> {
    ban_command_of(jail, ip).push('\n')
}

/// Formats the ban command for `ip` in `jail`.
pub fn format_command(jail: &str, ip: &str) -> (r: String)
    ensures
        r@ == ban_command_of(jail@, ip@),
{
    let mut r = String::from_str("set ");
    r.append(jail);
    r.append(" banip ");
    r.append(ip);
    proof {
        reveal_strlit("set ");
        reveal_strlit(" banip ");
        assert(r@ =~= ban_command_of(jail@, ip@));
    }
    r
}

/// The ban command as one line, ready to be written to the ban socket.
pub fn ban_line(jail: &str, ip: &str) -> (r: String)
    ensures
        r@ == ban_line_of(jail@, ip@),
{
    let mut r = format_command(jail, ip);
    r.append("\n");
    proof {
        reveal_strlit("\n");
        assert(r@ =~= ban_line_of(jail@, ip@));
    }
    r
}

} // verus!
