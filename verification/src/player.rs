//! Arguments for ani-cli playback.

use vstd::prelude::*;
use crate::text::{decimal, law_digits_are_digits, nat_digits};

verus! {

/// Options passed to ani-cli when launching playback.
#[derive(Debug, Clone)]
pub struct PlayOptions {
    /// Title to pass to ani-cli as the search query.
    pub title: String,
    /// Episode number to play.
    pub episode: u32,
    /// Quality string, e.g. "1080p", "720p", "best".
    pub quality: String,
    /// true = dub, false = sub.
    pub dub: bool,
}

/// The argument list for a play request: episode flag and number, quality
/// flag and value, the dub flag when dubbed, the no-detach flag, and the
/// title last.
pub open spec fn play_args(title: Seq<char>, episode: u32, quality: Seq<char>, dub: bool) -> Seq<Seq<char>> {
    seq!["-e"@, nat_digits(episode as nat), "-q"@, quality]
        + (if dub { seq!["--dub"@] } else { Seq::empty() })
        + seq!["--no-detach"@, title]
}

/// Builds the ani-cli command arguments for a play request.
pub fn build_args(opts: &PlayOptions) -> (args: Vec<String>)
    ensures
        args.deep_view() == play_args(opts.title@, opts.episode, opts.quality@, opts.dub),
{
    let mut args: Vec<String> = Vec::new();
    args.push(String::from_str("-e"));
    args.push(decimal(opts.episode as u64));
    args.push(String::from_str("-q"));
    args.push(opts.quality.clone());
    if opts.dub {
        args.push(String::from_str("--dub"));
    }
    args.push(String::from_str("--no-detach"));
    args.push(opts.title.clone());
    assert(args.deep_view() =~= play_args(opts.title@, opts.episode, opts.quality@, opts.dub));
    args
}

/// The shape of every ani-cli invocation: the episode number follows
/// `-e`, the quality follows `-q`, `--dub` appears exactly when dubbed,
/// `--no-detach` is always there and the title comes last. When neither
/// the title nor the quality is itself `--dub`, the flag is absent from a
/// subbed invocation.
pub proof fn law_play_args_shape(title: Seq<char>, episode: u32, quality: Seq<char>, dub: bool)
    ensures
        !dub && title != "--dub"@ && quality != "--dub"@
            ==> !play_args(title, episode, quality, dub).contains("--dub"@),
        ({
            let a = play_args(title, episode, quality, dub);
            &&& a[0] == "-e"@ && a[1] == nat_digits(episode as nat)
            &&& a[2] == "-q"@ && a[3] == quality
            &&& a.last() == title
            &&& a[a.len() - 2] == "--no-detach"@
            &&& a.len() == (if dub { 7int } else { 6int })
            &&& dub ==> a[4] == "--dub"@
        }),
{
    reveal_strlit("--dub");
    reveal_strlit("-e");
    reveal_strlit("-q");
    reveal_strlit("--no-detach");
    law_digits_are_digits(episode as nat);
    let a = play_args(title, episode, quality, dub);
    if !dub && title != "--dub"@ && quality != "--dub"@ {
        assert(nat_digits(episode as nat)[0] != "--dub"@[0]);
        assert(a =~= seq!["-e"@, nat_digits(episode as nat), "-q"@, quality, "--no-detach"@, title]);
        assert forall|i: int| 0 <= i < a.len() implies a[i] != "--dub"@ by {
            if i == 0 { assert(a[i].len() != "--dub"@.len()); }
            if i == 1 { assert(a[i][0] != "--dub"@[0]); }
            if i == 2 { assert(a[i].len() != "--dub"@.len()); }
            if i == 4 { assert(a[i].len() != "--dub"@.len()); }
        }
    }
}

} // verus!
