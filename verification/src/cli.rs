//! The `auto` command surface: help text, argument handling, and the
//! choice of what a command line asks for.

use vstd::prelude::*;

use crate::kernel::{Error, Result};
use crate::text::{char_views, chars_of, join, join_chars, push_str, str_eq, string_of};

verus! {

/// Bootloader verb served by this package.
pub const AUTO_VERB: &'static str = "auto";

/// Host library id registered for the auto verb.
pub const AUTO_HOST_LIB: &'static str = "lib/auto";

/// The lines of the help text.
pub open spec fn help_lines() -> Seq<Seq<char>> {
    seq![
        "auto commands:"@,
        "  auto diag --vehicle MODELED-SE-1 --market SE --site modeled"@,
        "  auto bay"@,
        "  auto intents"@,
    ]
}

/// Returns help text for the modeled automotive command surface: its
/// lines joined by newlines.
pub fn auto_help() -> (r: String)
    ensures
        r@ == join(help_lines(), "\n"@),
{
    let lines = vec![
        chars_of("auto commands:"),
        chars_of("  auto diag --vehicle MODELED-SE-1 --market SE --site modeled"),
        chars_of("  auto bay"),
        chars_of("  auto intents"),
    ];
    assert(char_views(lines@) =~= help_lines());
    let joined = join_chars(lines.as_slice(), "\n");
    string_of(joined.as_slice())
}

/// The views of a list of strings.
pub open spec fn arg_views(v: Seq<String>) -> Seq<Seq<char>> {
    v.map_values(|s: String| s@)
}

/// The arguments after a leading `auto`, or all of them.
pub open spec fn command_words(args: Seq<Seq<char>>) -> Seq<Seq<char>> {
    if args.len() > 0 && args[0] == "auto"@ {
        args.drop_first()
    } else {
        args
    }
}

/// Copies `args[from..]`.
fn copy_from(args: &[String], from: usize) -> (r: Vec<String>)
    requires
        from <= args@.len(),
    ensures
        arg_views(r@) == arg_views(args@).skip(from as int),
{
    let mut r: Vec<String> = Vec::new();
    let mut i: usize = from;
    while i < args.len()
        invariant
            from <= i <= args@.len(),
            r@.len() == i - from,
            forall|k: int| 0 <= k < r@.len() ==> (#[trigger] r@[k])@ == args@[from + k]@,
        decreases args@.len() - i,
    {
        r.push(args[i].clone());
        i = i + 1;
    }
    assert(arg_views(r@) =~= arg_views(args@).skip(from as int));
    r
}

/// Drops a leading `auto` verb from the arguments.
pub fn command_args(args: &[String]) -> (r: Vec<String>)
    ensures
        arg_views(r@) == command_words(arg_views(args@)),
{
    if args.len() > 0 && str_eq(args[0].as_str(), "auto") {
        let r = copy_from(args, 1);
        assert(arg_views(args@).skip(1) =~= arg_views(args@).drop_first());
        r
    } else {
        let r = copy_from(args, 0);
        assert(arg_views(args@).skip(0) =~= arg_views(args@));
        r
    }
}

/// Options of `auto diag`.
#[derive(Clone, Debug, PartialEq, Eq)]
pub struct DiagOptions {
    /// Vehicle or plate label.
    pub vehicle: String,
    /// Market label.
    pub market: String,
    /// Site label.
    pub site: String,
}

/// What parsing `auto diag` options gives: the options as vehicle,
/// market and site, or the error text. Each flag takes the next argument;
/// a later flag overrides an earlier one.
pub open spec fn parse_diag(args: Seq<Seq<char>>, vehicle: Seq<char>, market: Seq<char>, site: Seq<char>) -> core::result::Result<
    (Seq<char>, Seq<char>, Seq<char>),
    Seq<char>,
>
    decreases args.len(),
{
    if args.len() == 0 {
        Ok((vehicle, market, site))
    } else {
        let flag = args[0];
        if flag == "--vehicle"@ || flag == "--plate"@ || flag == "--market"@ || flag == "--site"@ {
            if args.len() < 2 {
                Err("missing value for "@ + flag)
            } else {
                let v = args[1];
                let rest = args.drop_first().drop_first();
                if flag == "--market"@ {
                    parse_diag(rest, vehicle, v, site)
                } else if flag == "--site"@ {
                    parse_diag(rest, vehicle, market, v)
                } else {
                    parse_diag(rest, v, market, site)
                }
            }
        } else {
            Err("unknown auto diag option '"@ + flag + "'; run 'auto help'"@)
        }
    }
}

impl DiagOptions {
    /// Parses `auto diag` options; the defaults are vehicle
    /// `MODELED-SE-1`, market `SE` and site `modeled`.
    pub fn parse(args: &[String]) -> (r: Result<Self>)
        ensures
            match parse_diag(arg_views(args@), "MODELED-SE-1"@, "SE"@, "modeled"@) {
                Ok((v, m, s)) => r matches Ok(o) && o.vehicle@ == v && o.market@ == m && o.site@ == s,
                Err(msg) => r matches Err(Error::Eval(e)) && e@ == msg,
            },
    {
        let ghost all = arg_views(args@);
        let mut vehicle = "MODELED-SE-1".to_owned();
        let mut market = "SE".to_owned();
        let mut site = "modeled".to_owned();
        let mut i: usize = 0;
        assert(all.skip(0) =~= all);
        while i < args.len()
            invariant
                all == arg_views(args@),
                i <= args@.len(),
                parse_diag(all, "MODELED-SE-1"@, "SE"@, "modeled"@) == parse_diag(all.skip(i as int), vehicle@, market@, site@),
            decreases args@.len() - i,
        {
            let ghost rest = all.skip(i as int);
            assert(rest[0] == args@[i as int]@);
            let arg = args[i].as_str();
            let is_vehicle = str_eq(arg, "--vehicle") || str_eq(arg, "--plate");
            let is_market = str_eq(arg, "--market");
            let is_site = str_eq(arg, "--site");
            if !(is_vehicle || is_market || is_site) {
                let mut text = chars_of("unknown auto diag option '");
                push_str(&mut text, arg);
                push_str(&mut text, "'; run 'auto help'");
                return Err(Error::Eval(string_of(text.as_slice())));
            }
            if i + 1 >= args.len() {
                let mut text = chars_of("missing value for ");
                push_str(&mut text, arg);
                return Err(Error::Eval(string_of(text.as_slice())));
            }
            assert(rest[1] == args@[i + 1]@);
            assert(rest.drop_first().drop_first() =~= all.skip(i + 2));
            let value = args[i + 1].clone();
            if is_market {
                market = value;
            } else if is_site {
                site = value;
            } else {
                vehicle = value;
            }
            i = i + 2;
        }
        assert(all.skip(i as int).len() == 0);
        Ok(DiagOptions { vehicle, market, site })
    }
}

/// What a command line asks for.
#[derive(Clone, Debug, PartialEq, Eq)]
pub enum AutoCommand {
    /// The bay overview; also what no arguments ask for.
    Bay,
    /// The modeled diagnostic read with its options.
    Diag(DiagOptions),
    /// The modeled intents count.
    Intents,
    /// The help text.
    Help,
}

/// The error text for an unknown command word.
pub open spec fn unknown_command_message(word: Seq<char>) -> Seq<char> {
    "unknown auto command '"@ + word + "'; run 'auto help'"@
}

/// Decides what a command line asks for: the first word after an optional
/// `auto` picks the command; `diag` parses its options and serves only the
/// modeled site.
pub fn parse_auto_command(args: &[String]) -> (r: Result<AutoCommand>)
    ensures
        ({
            let words = command_words(arg_views(args@));
            if words.len() == 0 || words[0] == "bay"@ || words[0] == "scene"@ {
                r == Ok::<AutoCommand, Error>(AutoCommand::Bay)
            } else if words[0] == "diag"@ || words[0] == "diagnostics"@ {
                match parse_diag(words.drop_first(), "MODELED-SE-1"@, "SE"@, "modeled"@) {
                    Ok((v, m, s)) => if s == "modeled"@ {
                        r matches Ok(AutoCommand::Diag(o)) && o.vehicle@ == v && o.market@ == m && o.site@ == s
                    } else {
                        r matches Err(Error::Eval(e)) && e@ == "public auto command only serves the modeled site"@
                    },
                    Err(msg) => r matches Err(Error::Eval(e)) && e@ == msg,
                }
            } else if words[0] == "intents"@ {
                r == Ok::<AutoCommand, Error>(AutoCommand::Intents)
            } else if words[0] == "help"@ || words[0] == "--help"@ || words[0] == "-h"@ {
                r == Ok::<AutoCommand, Error>(AutoCommand::Help)
            } else {
                r matches Err(Error::Eval(e)) && e@ == unknown_command_message(words[0])
            }
        }),
{
    let words = command_args(args);
    if words.len() == 0 {
        return Ok(AutoCommand::Bay);
    }
    let first = words[0].as_str();
    if str_eq(first, "bay") || str_eq(first, "scene") {
        Ok(AutoCommand::Bay)
    } else if str_eq(first, "diag") || str_eq(first, "diagnostics") {
        let rest = copy_from(words.as_slice(), 1);
        assert(arg_views(words@).skip(1) =~= arg_views(words@).drop_first());
        match DiagOptions::parse(rest.as_slice()) {
            Ok(opts) => {
                if str_eq(opts.site.as_str(), "modeled") {
                    Ok(AutoCommand::Diag(opts))
                } else {
                    Err(Error::Eval("public auto command only serves the modeled site".to_owned()))
                }
            },
            Err(e) => Err(e),
        }
    } else if str_eq(first, "intents") {
        Ok(AutoCommand::Intents)
    } else if str_eq(first, "help") || str_eq(first, "--help") || str_eq(first, "-h") {
        Ok(AutoCommand::Help)
    } else {
        let mut text = chars_of("unknown auto command '");
        push_str(&mut text, first);
        push_str(&mut text, "'; run 'auto help'");
        Err(Error::Eval(string_of(text.as_slice())))
    }
}

/// Process arguments, program name first, with the `auto` verb in second
/// place: left as they are when it is there already, inserted after the
/// program name otherwise.
pub open spec fn boot_args(args: Seq<Seq<char>>) -> Seq<Seq<char>> {
    if args.len() >= 2 && args[1] == "auto"@ {
        args
    } else {
        args.insert(1, "auto"@)
    }
}

/// Normalizes process arguments so `sim-auto diag` boots the `auto` verb.
pub fn auto_boot_args(args: Vec<String>) -> (r: Vec<String>)
    requires
        args@.len() >= 1,
    ensures
        arg_views(r@) == boot_args(arg_views(args@)),
{
    let mut args = args;
    if args.len() >= 2 && str_eq(args[1].as_str(), AUTO_VERB) {
        return args;
    }
    let ghost before = args@;
    args.insert(1, AUTO_VERB.to_owned());
    assert(arg_views(args@) =~= arg_views(before).insert(1, "auto"@));
    args
}

/// Loadable automotive command library.
#[derive(Clone, Debug, Default)]
pub struct AutoCliLib;

impl AutoCliLib {
    /// Creates an auto command library instance.
    pub fn new() -> (r: Self)
        ensures
            r == AutoCliLib,
    {
        AutoCliLib
    }
}

} // verus!
