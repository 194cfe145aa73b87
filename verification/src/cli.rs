//! The packet-debugging tool's command line: its options, the capture
//! filter they ask for, and which decoded packets it prints.

use vstd::prelude::*;
use crate::capture::filter::CaptureFilter;
use crate::capture::hosts::{cidrs_ranges, entries_of, file_entries, lines_ranges, CidrRange, HostFilter};
use crate::error::DecodeError;
use crate::packet::decoded::DecodedPacket;
use crate::text::{
    chars_of, concat_str, debug_quote, debug_quoted, decimal, format_u64, i32_error_message,
    lemma_split_nonempty, parse_i32_chars, parse_uint_result, spec_i32_error, spec_parse_int,
    spec_uint_result, split_chars, split_seq, str_eq, string_from_chars, trim_chars, trimmed,
};

verus! {

/// The options of the tool.
#[derive(Debug, PartialEq, Eq)]
pub struct CliOptions {
    pub interface: Option<String>,
    pub ports: Vec<u16>,
    pub any_port: bool,
    pub host_cidrs: Vec<String>,
    pub hosts_files: Vec<String>,
    pub debug: bool,
    pub unknown: bool,
    pub count: Option<usize>,
    pub no_events: bool,
    pub no_operations: bool,
    pub op_include: Option<Vec<i32>>,
    pub event_include: Option<Vec<i32>>,
    pub op_exclude: Option<Vec<i32>>,
    pub event_exclude: Option<Vec<i32>>,
}

/// The options as values.
pub struct OptionsModel {
    pub interface: Option<Seq<char>>,
    pub ports: Seq<u16>,
    pub any_port: bool,
    pub host_cidrs: Seq<Seq<char>>,
    pub hosts_files: Seq<Seq<char>>,
    pub debug: bool,
    pub unknown: bool,
    pub count: Option<usize>,
    pub no_events: bool,
    pub no_operations: bool,
    pub op_include: Option<Seq<i32>>,
    pub event_include: Option<Seq<i32>>,
    pub op_exclude: Option<Seq<i32>>,
    pub event_exclude: Option<Seq<i32>>,
}

pub open spec fn opt_text(o: Option<String>) -> Option<Seq<char>> {
    match o {
        Some(t) => Some(t@),
        None => None,
    }
}

pub open spec fn opt_codes(o: Option<Vec<i32>>) -> Option<Seq<i32>> {
    match o {
        Some(v) => Some(v@),
        None => None,
    }
}

pub open spec fn texts(v: Seq<String>) -> Seq<Seq<char>> {
    v.map_values(|t: String| t@)
}

impl CliOptions {
    pub open spec fn model(&self) -> OptionsModel {
        OptionsModel {
            interface: opt_text(self.interface),
            ports: self.ports@,
            any_port: self.any_port,
            host_cidrs: texts(self.host_cidrs@),
            hosts_files: texts(self.hosts_files@),
            debug: self.debug,
            unknown: self.unknown,
            count: self.count,
            no_events: self.no_events,
            no_operations: self.no_operations,
            op_include: opt_codes(self.op_include),
            event_include: opt_codes(self.event_include),
            op_exclude: opt_codes(self.op_exclude),
            event_exclude: opt_codes(self.event_exclude),
        }
    }
}

/// The options with no arguments: the game's ports 5056 and 4535, nothing
/// else set.
pub open spec fn default_model() -> OptionsModel {
    OptionsModel {
        interface: None,
        ports: seq![5056u16, 4535u16],
        any_port: false,
        host_cidrs: Seq::empty(),
        hosts_files: Seq::empty(),
        debug: false,
        unknown: false,
        count: None,
        no_events: false,
        no_operations: false,
        op_include: None,
        event_include: None,
        op_exclude: None,
        event_exclude: None,
    }
}

impl Default for CliOptions {
    fn default() -> (r: CliOptions)
        ensures
            r.model() == default_model(),
    {
        let mut ports: Vec<u16> = Vec::new();
        ports.push(5056);
        ports.push(4535);
        let r = CliOptions {
            interface: None,
            ports,
            any_port: false,
            host_cidrs: Vec::new(),
            hosts_files: Vec::new(),
            debug: false,
            unknown: false,
            count: None,
            no_events: false,
            no_operations: false,
            op_include: None,
            event_include: None,
            op_exclude: None,
            event_exclude: None,
        };
        assert(r.model().ports =~= seq![5056u16, 4535u16]);
        assert(r.model().host_cidrs =~= Seq::<Seq<char>>::empty());
        assert(r.model().hosts_files =~= Seq::<Seq<char>>::empty());
        r
    }
}

/// The codes of a comma-separated list: each piece trimmed, empty pieces
/// left out; `None` when a piece is not an `i32`.
pub open spec fn codes_of(pieces: Seq<Seq<char>>) -> Option<Seq<i32>>
    decreases pieces.len(),
{
    if pieces.len() == 0 {
        Some(Seq::empty())
    } else {
        match codes_of(pieces.drop_last()) {
            None => None,
            Some(prev) => {
                let t = trimmed(pieces.last());
                if t.len() == 0 {
                    Some(prev)
                } else {
                    match spec_parse_int(t, i32::MIN as int, i32::MAX as int) {
                        Some(v) => Some(prev.push(v as i32)),
                        None => None,
                    }
                }
            },
        }
    }
}

/// The codes of a comma-separated list, as [`codes_of`] says.
pub open spec fn code_list(value: Seq<char>) -> Option<Seq<i32>> {
    codes_of(split_seq(value, ','))
}

/// The first piece of a code list, from `i` on, that is neither blank nor
/// a code, trimmed.
pub open spec fn first_bad_code(ps: Seq<Seq<char>>, i: int) -> Option<Seq<char>>
    decreases ps.len() - i,
{
    if i < 0 || i >= ps.len() {
        None
    } else {
        let t = trimmed(ps[i]);
        if t.len() > 0 && spec_parse_int(t, i32::MIN as int, i32::MAX as int) is None {
            Some(t)
        } else {
            first_bad_code(ps, i + 1)
        }
    }
}

/// The message the tool stops with on a code list that does not read: its
/// first bad piece as `{:?}` writes it, and `i32::from_str`'s error.
pub open spec fn code_list_stop(value: Seq<char>) -> Seq<char> {
    let t = first_bad_code(split_seq(value, ','), 0)->Some_0;
    "invalid code "@ + debug_quoted(t) + ": "@ + spec_i32_error(t)
}

/// Reads a comma-separated list of codes, as [`code_list`] says; a list
/// with a piece that is neither blank nor a code gives the message of
/// [`code_list_stop`].
pub fn read_code_list(value: &str) -> (r: Result<Vec<i32>, String>)
    ensures
        match r {
            Ok(v) => code_list(value@) == Some(v@),
            Err(m) => code_list(value@) is None && m@ == code_list_stop(value@),
        },
{
    let cs = chars_of(value);
    let pieces = split_chars(&cs, ',');
    let ghost ps = split_seq(value@, ',');
    let mut out: Vec<i32> = Vec::new();
    let mut i: usize = 0;
    proof {
        assert(ps.take(0) =~= Seq::<Seq<char>>::empty());
    }
    while i < pieces.len()
        invariant
            i <= pieces.len(),
            pieces.len() == ps.len(),
            ps == split_seq(value@, ','),
            forall|j: int| 0 <= j < pieces.len() ==> (#[trigger] pieces@[j])@ == ps[j],
            codes_of(ps.take(i as int)) == Some(out@),
            first_bad_code(ps, 0) == first_bad_code(ps, i as int),
        decreases pieces.len() - i,
    {
        proof {
            assert(ps.take(i + 1).drop_last() =~= ps.take(i as int));
        }
        let t = trim_chars(&pieces[i]);
        if t.len() > 0 {
            let v = match parse_i32_chars(&t) {
                Some(v) => v,
                None => {
                    proof {
                        lemma_codes_none_extends(ps, i + 1);
                    }
                    let text = string_from_chars(t.as_slice());
                    let head = concat_str("invalid code ", debug_quote(text.as_str()).as_str());
                    let head = concat_str(head.as_str(), ": ");
                    let message = concat_str(head.as_str(), i32_error_message(t.as_slice()));
                    proof {
                        reveal_strlit("invalid code ");
                        reveal_strlit(": ");
                        assert(message@ =~= code_list_stop(value@));
                    }
                    return Err(message);
                },
            };
            out.push(v);
        }
        i = i + 1;
    }
    proof {
        assert(ps.take(pieces.len() as int) =~= ps);
    }
    Ok(out)
}

/// Reads a comma-separated list of codes, as [`code_list`] says; every
/// piece must be blank or a code.
pub fn parse_code_list(value: &str) -> (r: Vec<i32>)
    requires
        code_list(value@) is Some,
    ensures
        r@ == code_list(value@)->Some_0,
{
    match read_code_list(value) {
        Ok(v) => v,
        Err(_) => Vec::new(),
    }
}

/// A list whose first pieces do not read does not read.
proof fn lemma_codes_none_extends(ps: Seq<Seq<char>>, k: int)
    requires
        0 <= k <= ps.len(),
        codes_of(ps.take(k)) is None,
    ensures
        codes_of(ps) is None,
    decreases ps.len(),
{
    if k < ps.len() {
        assert(ps.drop_last().take(k) =~= ps.take(k));
        lemma_codes_none_extends(ps.drop_last(), k);
    } else {
        assert(ps.take(k) =~= ps);
    }
}

/// What the argument at `i` does to the options read so far (`ports_set`
/// tells whether `--port` or `--any-port` already replaced the default
/// ports): the options after it and where the next argument is, or the
/// error message; `None` when a code list does not read.
pub open spec fn arg_step(
    m: OptionsModel,
    ports_set: bool,
    args: Seq<Seq<char>>,
    i: int,
) -> Option<Result<(OptionsModel, bool, int), Seq<char>>> {
    let a = args[i];
    let has_value = i + 1 < args.len();
    let v = args[i + 1];
    if a == "--debug"@ {
        Some(Ok((OptionsModel { debug: true, ..m }, ports_set, i + 1)))
    } else if a == "--unknown"@ {
        Some(Ok((OptionsModel { unknown: true, ..m }, ports_set, i + 1)))
    } else if a == "--no-events"@ {
        Some(Ok((OptionsModel { no_events: true, ..m }, ports_set, i + 1)))
    } else if a == "--no-operations"@ {
        Some(Ok((OptionsModel { no_operations: true, ..m }, ports_set, i + 1)))
    } else if a == "--any-port"@ {
        Some(Ok((OptionsModel { any_port: true, ports: Seq::empty(), ..m }, true, i + 1)))
    } else if a == "--interface"@ || a == "--port"@ || a == "--host-cidr"@ || a == "--hosts-file"@
        || a == "--count"@ || a == "--op-include"@ || a == "--event-include"@ || a
        == "--op-exclude"@ || a == "--event-exclude"@ {
        if !has_value {
            Some(Err("missing value for "@ + a))
        } else if a == "--interface"@ {
            Some(Ok((OptionsModel { interface: Some(v), ..m }, ports_set, i + 2)))
        } else if a == "--port"@ {
            match spec_uint_result(v, 0xffff) {
                Err(e) => Some(Err("invalid --port value: "@ + e)),
                Ok(p) => Some(
                    Ok(
                        (
                            OptionsModel {
                                ports: if ports_set {
                                    m.ports.push(p as u16)
                                } else {
                                    seq![p as u16]
                                },
                                any_port: false,
                                ..m
                            },
                            true,
                            i + 2,
                        ),
                    ),
                ),
            }
        } else if a == "--host-cidr"@ {
            Some(Ok((OptionsModel { host_cidrs: m.host_cidrs.push(v), ..m }, ports_set, i + 2)))
        } else if a == "--hosts-file"@ {
            Some(Ok((OptionsModel { hosts_files: m.hosts_files.push(v), ..m }, ports_set, i + 2)))
        } else if a == "--count"@ {
            match spec_uint_result(v, usize::MAX as int) {
                Err(e) => Some(Err("invalid --count value: "@ + e)),
                Ok(c) => Some(Ok((OptionsModel { count: Some(c as usize), ..m }, ports_set, i + 2))),
            }
        } else {
            match code_list(v) {
                None => None,
                Some(codes) => Some(
                    Ok(
                        (
                            if a == "--op-include"@ {
                                OptionsModel { op_include: Some(codes), ..m }
                            } else if a == "--event-include"@ {
                                OptionsModel { event_include: Some(codes), ..m }
                            } else if a == "--op-exclude"@ {
                                OptionsModel { op_exclude: Some(codes), ..m }
                            } else {
                                OptionsModel { event_exclude: Some(codes), ..m }
                            },
                            ports_set,
                            i + 2,
                        ),
                    ),
                ),
            }
        }
    } else {
        Some(Err("unknown argument: "@ + a))
    }
}

/// The options the arguments from `i` on give, from options `m`.
pub open spec fn run_args(m: OptionsModel, ports_set: bool, args: Seq<Seq<char>>, i: int) -> Option<
    Result<OptionsModel, Seq<char>>,
>
    decreases args.len() - i,
{
    if i >= args.len() || i < 0 {
        Some(Ok(m))
    } else {
        match arg_step(m, ports_set, args, i) {
            None => None,
            Some(Err(e)) => Some(Err(e)),
            Some(Ok((m2, p2, j))) => if j > i {
                run_args(m2, p2, args, j)
            } else {
                Some(Ok(m2))
            },
        }
    }
}

/// The options a command line gives, or its error message; `None` when a
/// code list does not read, or when both a list of codes to keep and one to
/// leave out are given for operations or for events.
pub open spec fn spec_parse_args(args: Seq<Seq<char>>) -> Option<Result<OptionsModel, Seq<char>>> {
    match run_args(default_model(), false, args, 0) {
        Some(Ok(m)) => if (m.op_include is Some && m.op_exclude is Some) || (m.event_include is Some
            && m.event_exclude is Some) {
            None
        } else {
            Some(Ok(m))
        },
        other => other,
    }
}

/// The value after a flag, or the message that it is missing.
pub fn next_value(args: &Vec<String>, i: usize, flag: &str) -> (r: Result<String, String>)
    ensures
        match r {
            Ok(v) => i < args.len() && v@ == args@[i as int]@,
            Err(e) => i >= args.len() && e@ == "missing value for "@ + flag@,
        },
{
    if i < args.len() {
        Ok(args[i].clone())
    } else {
        Err(concat_str("missing value for ", flag))
    }
}


fn is_value_flag(a: &str) -> (r: bool)
    ensures
        r == (a@ == "--interface"@ || a@ == "--port"@ || a@ == "--host-cidr"@ || a@
            == "--hosts-file"@ || a@ == "--count"@ || a@ == "--op-include"@ || a@
            == "--event-include"@ || a@ == "--op-exclude"@ || a@ == "--event-exclude"@),
{
    str_eq(a, "--interface") || str_eq(a, "--port") || str_eq(a, "--host-cidr") || str_eq(
        a,
        "--hosts-file",
    ) || str_eq(a, "--count") || str_eq(a, "--op-include") || str_eq(a, "--event-include")
        || str_eq(a, "--op-exclude") || str_eq(a, "--event-exclude")
}

/// Applies the argument at `i`, as [`arg_step`] says; returns where the
/// next argument is.
fn apply_arg(options: &mut CliOptions, ports_set: &mut bool, args: &Vec<String>, i: usize) -> (r:
    Result<Result<usize, String>, String>)
    requires
        i < args.len(),
    ensures
        match arg_step(old(options).model(), *old(ports_set), texts(args@), i as int) {
            Some(Ok((m, p, j))) => r == Ok::<Result<usize, String>, String>(Ok::<usize, String>(j as usize))
                && final(options).model() == m && *final(ports_set) == p,
            Some(Err(e)) => r matches Ok(Err(x)) && x@ == e,
            None => r matches Err(x) && x@ == code_list_stop(texts(args@)[i + 1]),
        },
{
    let ghost ts = texts(args@);
    let a = args[i].as_str();
    assert(ts[i as int] == a@);
    if str_eq(a, "--debug") {
        options.debug = true;
        return Ok(Ok(i + 1));
    }
    if str_eq(a, "--unknown") {
        options.unknown = true;
        return Ok(Ok(i + 1));
    }
    if str_eq(a, "--no-events") {
        options.no_events = true;
        return Ok(Ok(i + 1));
    }
    if str_eq(a, "--no-operations") {
        options.no_operations = true;
        return Ok(Ok(i + 1));
    }
    if str_eq(a, "--any-port") {
        options.any_port = true;
        options.ports = Vec::new();
        *ports_set = true;
        assert(options.model().ports =~= Seq::<u16>::empty());
        return Ok(Ok(i + 1));
    }
    if !is_value_flag(a) {
        return Ok(Err(concat_str("unknown argument: ", a)));
    }
    let v = match next_value(args, i + 1, a) {
        Ok(v) => v,
        Err(e) => return Ok(Err(e)),
    };
    assert(ts[i + 1] == v@);
    if str_eq(a, "--interface") {
        options.interface = Some(v);
        return Ok(Ok(i + 2));
    }
    if str_eq(a, "--port") {
        let vc = chars_of(v.as_str());
        let port = match parse_uint_result(&vc, 0xffff) {
            Ok(p) => p as u16,
            Err(e) => return Ok(Err(concat_str("invalid --port value: ", e))),
        };
        if !*ports_set {
            options.ports = Vec::new();
            *ports_set = true;
        }
        let ghost before = options.ports@;
        options.ports.push(port);
        options.any_port = false;
        proof {
            if !*old(ports_set) {
                assert(options.ports@ =~= seq![port]);
            }
        }
        return Ok(Ok(i + 2));
    }
    if str_eq(a, "--host-cidr") {
        let ghost before = options.host_cidrs@;
        options.host_cidrs.push(v);
        assert(texts(options.host_cidrs@) =~= texts(before).push(v@));
        return Ok(Ok(i + 2));
    }
    if str_eq(a, "--hosts-file") {
        let ghost before = options.hosts_files@;
        options.hosts_files.push(v);
        assert(texts(options.hosts_files@) =~= texts(before).push(v@));
        return Ok(Ok(i + 2));
    }
    if str_eq(a, "--count") {
        let vc = chars_of(v.as_str());
        let count = match parse_uint_result(&vc, usize::MAX as u64) {
            Ok(c) => c as usize,
            Err(e) => return Ok(Err(concat_str("invalid --count value: ", e))),
        };
        options.count = Some(count);
        return Ok(Ok(i + 2));
    }
    let codes = match read_code_list(v.as_str()) {
        Ok(c) => c,
        Err(m) => return Err(m),
    };
    if str_eq(a, "--op-include") {
        options.op_include = Some(codes);
    } else if str_eq(a, "--event-include") {
        options.event_include = Some(codes);
    } else if str_eq(a, "--op-exclude") {
        options.op_exclude = Some(codes);
    } else {
        options.event_exclude = Some(codes);
    }
    Ok(Ok(i + 2))
}

/// The message the tool stops with while reading the arguments from `i`
/// on: that of the first code list that does not read, if one is reached
/// before an argument error; empty otherwise.
pub open spec fn run_stop(m: OptionsModel, ports_set: bool, args: Seq<Seq<char>>, i: int) -> Seq<char>
    decreases args.len() - i,
{
    if i >= args.len() || i < 0 {
        Seq::empty()
    } else {
        match arg_step(m, ports_set, args, i) {
            None => code_list_stop(args[i + 1]),
            Some(Err(_)) => Seq::empty(),
            Some(Ok((m2, p2, j))) => if j > i {
                run_stop(m2, p2, args, j)
            } else {
                Seq::empty()
            },
        }
    }
}

/// The message the tool stops with on a command line that
/// [`spec_parse_args`] does not read: a code list's ([`code_list_stop`]),
/// or that both a listed and an unlisted list were given, for operations
/// first.
pub open spec fn stop_message(args: Seq<Seq<char>>) -> Seq<char> {
    match run_args(default_model(), false, args, 0) {
        Some(Ok(m)) => if m.op_include is Some && m.op_exclude is Some {
            "--op-include and --op-exclude cannot both be specified"@
        } else {
            "--event-include and --event-exclude cannot both be specified"@
        },
        _ => run_stop(default_model(), false, args, 0),
    }
}

/// Reads a command line (without the program name), as
/// [`spec_parse_args`] says; `Err` with the message of [`stop_message`]
/// when a code list does not read, or when operations or events have both
/// a listed and an unlisted list.
pub fn try_parse_args(args: Vec<String>) -> (r: Result<Result<CliOptions, String>, String>)
    ensures
        match spec_parse_args(texts(args@)) {
            Some(Ok(m)) => r matches Ok(Ok(o)) && o.model() == m,
            Some(Err(e)) => r matches Ok(Err(x)) && x@ == e,
            None => r matches Err(x) && x@ == stop_message(texts(args@)),
        },
{
    let ghost ts = texts(args@);
    let mut options = CliOptions::default();
    let mut ports_set = false;
    let mut i: usize = 0;
    while i < args.len()
        invariant
            i <= args.len(),
            ts == texts(args@),
            run_args(default_model(), false, ts, 0) == run_args(options.model(), ports_set, ts, i as int),
            run_stop(default_model(), false, ts, 0) == run_stop(options.model(), ports_set, ts, i as int),
        decreases args.len() - i,
    {
        let j = match apply_arg(&mut options, &mut ports_set, &args, i) {
            Ok(Ok(j)) => j,
            Ok(Err(e)) => return Ok(Err(e)),
            Err(m) => return Err(m),
        };
        i = j;
    }
    if options.op_include.is_some() && options.op_exclude.is_some() {
        return Err(String::from_str("--op-include and --op-exclude cannot both be specified"));
    }
    if options.event_include.is_some() && options.event_exclude.is_some() {
        return Err(String::from_str("--event-include and --event-exclude cannot both be specified"));
    }
    Ok(Ok(options))
}

/// Reads a command line (without the program name), as
/// [`spec_parse_args`] says. Code lists must read, and operations and
/// events may each have a listed or an unlisted list, not both:
/// [`try_parse_args`] tells the command lines that break this.
pub fn parse_args(args: Vec<String>) -> (r: Result<CliOptions, String>)
    requires
        spec_parse_args(texts(args@)) is Some,
    ensures
        match spec_parse_args(texts(args@)) {
            Some(Ok(m)) => r matches Ok(o) && o.model() == m,
            Some(Err(e)) => r matches Err(x) && x@ == e,
            None => false,
        },
{
    match try_parse_args(args) {
        Ok(r) => r,
        Err(m) => Err(m),
    }
}


/// `port a or port b or ...` for the given ports.
pub open spec fn port_terms(ps: Seq<u16>) -> Seq<char>
    decreases ps.len(),
{
    if ps.len() == 0 {
        Seq::empty()
    } else if ps.len() == 1 {
        "port "@ + decimal(ps[0] as int)
    } else {
        port_terms(ps.drop_last()) + " or port "@ + decimal(ps.last() as int)
    }
}

/// The capture filter expression for the options: none for any port;
/// otherwise UDP on the ports (`udp` alone with none).
pub open spec fn spec_bpf_filter(m: OptionsModel) -> Option<Seq<char>> {
    if m.any_port {
        None
    } else if m.ports.len() == 0 {
        Some("udp"@)
    } else if m.ports.len() == 1 {
        Some("udp and port "@ + decimal(m.ports[0] as int))
    } else {
        Some("udp and ("@ + port_terms(m.ports) + ")"@)
    }
}

/// The capture filter expression for the options, as [`spec_bpf_filter`]
/// says.
pub fn build_bpf_filter(options: &CliOptions) -> (r: Option<String>)
    ensures
        match spec_bpf_filter(options.model()) {
            Some(t) => r matches Some(x) && x@ == t,
            None => r is None,
        },
{
    if options.any_port {
        return None;
    }
    let ports = &options.ports;
    if ports.len() == 0 {
        return Some(String::from_str("udp"));
    }
    if ports.len() == 1 {
        return Some(concat_str("udp and port ", format_u64(ports[0] as u64).as_str()));
    }
    let mut terms = concat_str("port ", format_u64(ports[0] as u64).as_str());
    let mut i: usize = 1;
    proof {
        assert(ports@.take(1).drop_last() =~= Seq::<u16>::empty());
    }
    while i < ports.len()
        invariant
            1 <= i <= ports.len(),
            *ports == options.ports,
            terms@ == port_terms(ports@.take(i as int)),
        decreases ports.len() - i,
    {
        let more = concat_str(" or port ", format_u64(ports[i] as u64).as_str());
        terms = concat_str(terms.as_str(), more.as_str());
        proof {
            assert(ports@.take(i + 1).drop_last() =~= ports@.take(i as int));
            assert(terms@ =~= port_terms(ports@.take(i as int)) + " or port "@ + decimal(
                ports@[i as int] as int,
            ));
        }
        i = i + 1;
    }
    proof {
        assert(ports@.take(ports.len() as int) =~= ports@);
    }
    let head = concat_str("udp and (", terms.as_str());
    Some(concat_str(head.as_str(), ")"))
}

pub open spec fn spec_code_filter(code: i32, listed: Option<Seq<i32>>, unlisted: Option<Seq<i32>>) -> bool {
    match listed {
        Some(v) => v.contains(code),
        None => match unlisted {
            Some(v) => !v.contains(code),
            None => true,
        },
    }
}

fn list_contains(v: &Vec<i32>, code: i32) -> (r: bool)
    ensures
        r == v@.contains(code),
{
    let mut i: usize = 0;
    while i < v.len()
        invariant
            i <= v.len(),
            forall|j: int| 0 <= j < i ==> v@[j] != code,
        decreases v.len() - i,
    {
        if v[i] == code {
            assert(v@[i as int] == code);
            return true;
        }
        i = i + 1;
    }
    false
}

/// Whether a code passes the lists: with an listed list, when listed;
/// else, with an unlisted list, when not listed; else always.
pub fn code_filter_matches(code: i32, listed: &Option<Vec<i32>>, unlisted: &Option<Vec<i32>>) -> (r:
    bool)
    ensures
        r == spec_code_filter(code, opt_codes(*listed), opt_codes(*unlisted)),
{
    match listed {
        Some(v) => list_contains(v, code),
        None => match unlisted {
            Some(v) => !list_contains(v, code),
            None => true,
        },
    }
}

/// Whether the tool prints a decoded packet: unknown packets always;
/// operations unless they are turned off, when their code number passes
/// the operation lists; events likewise.
pub open spec fn spec_should_emit(p: DecodedPacket, m: OptionsModel) -> bool {
    match p {
        DecodedPacket::Operation(op) => !m.no_operations && spec_code_filter(
            op.number,
            m.op_include,
            m.op_exclude,
        ),
        DecodedPacket::Event(ev) => !m.no_events && spec_code_filter(
            ev.number,
            m.event_include,
            m.event_exclude,
        ),
        DecodedPacket::Unknown(_) => true,
    }
}

/// Whether the tool prints a decoded packet, as [`spec_should_emit`] says.
pub fn should_emit(packet: &DecodedPacket, options: &CliOptions) -> (r: bool)
    ensures
        r == spec_should_emit(*packet, options.model()),
{
    match packet {
        DecodedPacket::Operation(operation) => {
            if options.no_operations {
                return false;
            }
            code_filter_matches(operation.number, &options.op_include, &options.op_exclude)
        },
        DecodedPacket::Event(event) => {
            if options.no_events {
                return false;
            }
            code_filter_matches(event.number, &options.event_include, &options.event_exclude)
        },
        DecodedPacket::Unknown(_) => true,
    }
}

/// The entries of the hosts files' texts, file after file.
pub open spec fn files_entries(contents: Seq<Seq<char>>) -> Seq<Seq<char>>
    decreases contents.len(),
{
    if contents.len() == 0 {
        Seq::empty()
    } else {
        let lines = split_seq(contents.last(), '\n');
        files_entries(contents.drop_last()) + entries_of(lines, lines.len() as int)
    }
}

/// The networks that the options' CIDR ranges and hosts files (given as
/// name and text) name: none asked for gives no host filter; a single
/// hosts file alone is read line by line (errors name the file and line);
/// otherwise the ranges and the files' entries are read as one list.
pub open spec fn spec_host_filter(
    cidrs: Seq<Seq<char>>,
    files: Seq<(Seq<char>, Seq<char>)>,
) -> Option<Result<Seq<CidrRange>, Seq<char>>> {
    if cidrs.len() == 0 && files.len() == 0 {
        None
    } else if cidrs.len() == 0 && files.len() == 1 {
        Some(lines_ranges(files[0].0, split_seq(files[0].1, '\n'), 0))
    } else {
        Some(cidrs_ranges(cidrs + files_entries(files.map_values(|f: (Seq<char>, Seq<char>)| f.1)), 0))
    }
}

pub open spec fn file_texts(files: Seq<(String, String)>) -> Seq<(Seq<char>, Seq<char>)> {
    files.map_values(|f: (String, String)| (f.0@, f.1@))
}

/// The host filter the options ask for, as [`spec_host_filter`] says;
/// `files` holds each hosts file's name and text, in the options' order.
pub fn build_host_filter(options: &CliOptions, files: &[(String, String)]) -> (r: Result<
    Option<HostFilter>,
    DecodeError,
>)
    ensures
        match spec_host_filter(texts(options.host_cidrs@), file_texts(files@)) {
            None => r matches Ok(None),
            Some(Ok(rs)) => r matches Ok(Some(f)) && f.ranges() == rs,
            Some(Err(e)) => r matches Err(x) && x.0@ == e,
        },
{
    let ghost fv = file_texts(files@);
    if options.host_cidrs.len() == 0 && files.len() == 0 {
        return Ok(None);
    }
    if options.host_cidrs.len() == 0 && files.len() == 1 {
        let (name, content) = &files[0];
        return match HostFilter::from_text(content.as_str(), name.as_str()) {
            Ok(f) => Ok(Some(f)),
            Err(e) => Err(e),
        };
    }
    let ghost contents = fv.map_values(|f: (Seq<char>, Seq<char>)| f.1);
    let mut all: Vec<String> = Vec::new();
    let mut k: usize = 0;
    while k < options.host_cidrs.len()
        invariant
            k <= options.host_cidrs.len(),
            texts(all@) == texts(options.host_cidrs@).take(k as int),
        decreases options.host_cidrs.len() - k,
    {
        let ghost before = all@;
        all.push(options.host_cidrs[k].clone());
        proof {
            assert(texts(all@) =~= texts(before).push(options.host_cidrs@[k as int]@));
            assert(texts(options.host_cidrs@).take(k + 1) =~= texts(options.host_cidrs@).take(
                k as int,
            ).push(options.host_cidrs@[k as int]@));
        }
        k = k + 1;
    }
    proof {
        assert(texts(options.host_cidrs@).take(k as int) =~= texts(options.host_cidrs@));
        assert(contents.take(0) =~= Seq::<Seq<char>>::empty());
        assert(texts(all@) =~= texts(options.host_cidrs@) + files_entries(contents.take(0)));
    }
    let mut j: usize = 0;
    while j < files.len()
        invariant
            j <= files.len(),
            fv == file_texts(files@),
            contents == fv.map_values(|f: (Seq<char>, Seq<char>)| f.1),
            texts(all@) == texts(options.host_cidrs@) + files_entries(contents.take(j as int)),
        decreases files.len() - j,
    {
        let entries = file_entries(files[j].1.as_str());
        let ghost before = texts(all@);
        let mut e: usize = 0;
        while e < entries.len()
            invariant
                e <= entries.len(),
                texts(all@) == before + texts(entries@).take(e as int),
            decreases entries.len() - e,
        {
            let ghost b2 = all@;
            all.push(entries[e].clone());
            proof {
                assert(texts(all@) =~= texts(b2).push(entries@[e as int]@));
                assert(texts(entries@).take(e + 1) =~= texts(entries@).take(e as int).push(
                    entries@[e as int]@,
                ));
                assert(before + texts(entries@).take(e + 1) =~= (before + texts(entries@).take(
                    e as int,
                )).push(entries@[e as int]@));
            }
            e = e + 1;
        }
        proof {
            assert(texts(entries@).take(e as int) =~= texts(entries@));
            assert(contents.take(j + 1).drop_last() =~= contents.take(j as int));
            assert(contents.take(j + 1).last() == files@[j as int].1@);
            assert(texts(entries@) == entries@.map_values(|t: String| t@));
            assert(texts(options.host_cidrs@) + files_entries(contents.take(j + 1)) =~= (texts(
                options.host_cidrs@,
            ) + files_entries(contents.take(j as int))) + texts(entries@));
        }
        j = j + 1;
    }
    proof {
        assert(contents.take(j as int) =~= contents);
    }
    let mut refs: Vec<&str> = Vec::new();
    let mut q: usize = 0;
    while q < all.len()
        invariant
            q <= all.len(),
            refs@.map_values(|c: &str| c@) == texts(all@).take(q as int),
        decreases all.len() - q,
    {
        let ghost b3 = refs@;
        refs.push(all[q].as_str());
        proof {
            assert(refs@.map_values(|c: &str| c@) =~= b3.map_values(|c: &str| c@).push(
                all@[q as int]@,
            ));
            assert(texts(all@).take(q + 1) =~= texts(all@).take(q as int).push(all@[q as int]@));
        }
        q = q + 1;
    }
    proof {
        assert(texts(all@).take(q as int) =~= texts(all@));
    }
    match HostFilter::from_cidrs(refs.as_slice()) {
        Ok(f) => Ok(Some(f)),
        Err(e) => Err(e),
    }
}

/// The capture filter the options ask for: any port, or their ports; with
/// the given host filter, if any.
pub fn build_capture_filter(options: &CliOptions, host_filter: Option<HostFilter>) -> (r: CaptureFilter)
    ensures
        r.spec_ports() == (if options.any_port {
            Seq::<u16>::empty()
        } else {
            options.ports@
        }),
        r.spec_host_filter() == host_filter,
{
    let mut filter = if options.any_port {
        CaptureFilter::any_port()
    } else {
        CaptureFilter::with_ports(options.ports.as_slice())
    };
    match host_filter {
        Some(h) => filter.set_host_filter(h),
        None => {},
    }
    filter
}

/// Whether `w` stands in `text` at position `at`.
pub open spec fn occurs_at(text: Seq<char>, w: Seq<char>, at: int) -> bool {
    0 <= at && at + w.len() <= text.len() && text.subrange(at, at + w.len()) == w
}

/// Whether `text` names port `p`, as `port p`.
pub open spec fn names_port(text: Seq<char>, p: u16) -> bool {
    exists|at: int| occurs_at(text, "port "@ + decimal(p as int), at)
}

/// Whether `text` names port `p` somewhere before it names port `q`.
pub open spec fn names_ports_in_order(text: Seq<char>, p: u16, q: u16) -> bool {
    exists|a: int, b: int|
        a < b && occurs_at(text, "port "@ + decimal(p as int), a) && occurs_at(
            text,
            "port "@ + decimal(q as int),
            b,
        )
}

/// Where the term of the `i`-th port starts in [`port_terms`].
spec fn term_start(ps: Seq<u16>, i: int) -> int
    decreases ps.len(),
{
    if ps.len() <= 1 {
        0
    } else if i == ps.len() - 1 {
        port_terms(ps.drop_last()).len() + 4int
    } else {
        term_start(ps.drop_last(), i)
    }
}

proof fn lemma_port_terms_positions(ps: Seq<u16>)
    requires
        ps.len() >= 1,
    ensures
        forall|i: int|
            0 <= i < ps.len() ==> occurs_at(
                port_terms(ps),
                "port "@ + decimal(ps[i] as int),
                #[trigger] term_start(ps, i),
            ),
        forall|i: int, j: int|
            0 <= i < j < ps.len() ==> #[trigger] term_start(ps, i) < #[trigger] term_start(ps, j),
    decreases ps.len(),
{
    reveal_strlit("port ");
    reveal_strlit(" or port ");
    if ps.len() == 1 {
        let w = "port "@ + decimal(ps[0] as int);
        assert(port_terms(ps) == w);
        assert(w.subrange(0, w.len() as int) =~= w);
    } else {
        let q = ps.drop_last();
        lemma_port_terms_positions(q);
        let pq = port_terms(q);
        let last = decimal(ps.last() as int);
        let text = port_terms(ps);
        assert(text == pq + " or port "@ + last);
        assert forall|i: int| 0 <= i < ps.len() implies occurs_at(
            text,
            "port "@ + decimal(ps[i] as int),
            #[trigger] term_start(ps, i),
        ) by {
            let w = "port "@ + decimal(ps[i] as int);
            if i == ps.len() - 1 {
                assert(term_start(ps, i) == pq.len() + 4);
                assert(text.subrange(pq.len() + 4int, pq.len() + 4int + w.len()) =~= w);
            } else {
                assert(ps[i] == q[i]);
                assert(term_start(ps, i) == term_start(q, i));
                assert(occurs_at(pq, w, term_start(q, i)));
                let a = term_start(q, i);
                assert(text.subrange(a, a + w.len()) =~= pq.subrange(a, a + w.len()));
            }
        }
        assert forall|i: int, j: int| 0 <= i < j < ps.len() implies #[trigger] term_start(ps, i)
            < #[trigger] term_start(ps, j) by {
            assert(term_start(ps, i) == term_start(q, i));
            assert(occurs_at(pq, "port "@ + decimal(q[i] as int), term_start(q, i)));
            if j < ps.len() - 1 {
                assert(term_start(ps, j) == term_start(q, j));
            }
        }
    }
}

/// With ports to capture on, the capture filter names each of them, as
/// `port p`, in the order they were given; with none, it is `udp`; with
/// any port allowed, there is no filter.
pub proof fn law_bpf_filter_names_every_port(m: OptionsModel)
    ensures
        m.any_port ==> spec_bpf_filter(m) is None,
        !m.any_port && m.ports.len() == 0 ==> spec_bpf_filter(m) == Some("udp"@),
        !m.any_port ==> spec_bpf_filter(m) is Some,
        !m.any_port ==> forall|i: int|
            0 <= i < m.ports.len() ==> names_port(spec_bpf_filter(m)->Some_0, #[trigger] m.ports[i]),
        !m.any_port ==> forall|i: int, j: int|
            0 <= i < j < m.ports.len() ==> names_ports_in_order(
                spec_bpf_filter(m)->Some_0,
                #[trigger] m.ports[i],
                #[trigger] m.ports[j],
            ),
{
    reveal_strlit("udp and (");
    reveal_strlit("udp and ");
    reveal_strlit("udp and port ");
    reveal_strlit("port ");
    reveal_strlit(")");
    if !m.any_port && m.ports.len() == 1 {
        let text = spec_bpf_filter(m)->Some_0;
        let w = "port "@ + decimal(m.ports[0] as int);
        assert(text.subrange(8, 8int + w.len()) =~= w);
        assert(occurs_at(text, w, 8));
        assert forall|i: int| 0 <= i < m.ports.len() implies names_port(text, #[trigger] m.ports[i]) by {
            assert(i == 0);
            assert(occurs_at(text, "port "@ + decimal(m.ports[i] as int), 8));
        }
    } else if !m.any_port && m.ports.len() > 1 {
        let ps = m.ports;
        lemma_port_terms_positions(ps);
        let pt = port_terms(ps);
        let text = spec_bpf_filter(m)->Some_0;
        assert(text == "udp and ("@ + pt + ")"@);
        assert forall|i: int| 0 <= i < ps.len() implies occurs_at(
            text,
            "port "@ + decimal(ps[i] as int),
            term_start(ps, i) + 9,
        ) by {
            let w = "port "@ + decimal(ps[i] as int);
            let a = term_start(ps, i);
            assert(occurs_at(pt, w, a));
            assert(text.subrange(a + 9, a + 9 + w.len()) =~= pt.subrange(a, a + w.len()));
        }
        assert forall|i: int| 0 <= i < ps.len() implies names_port(text, #[trigger] ps[i]) by {
            assert(occurs_at(text, "port "@ + decimal(ps[i] as int), term_start(ps, i) + 9));
        }
        assert forall|i: int, j: int| 0 <= i < j < ps.len() implies names_ports_in_order(
            text,
            #[trigger] ps[i],
            #[trigger] ps[j],
        ) by {
            assert(term_start(ps, i) < term_start(ps, j));
            assert(occurs_at(text, "port "@ + decimal(ps[i] as int), term_start(ps, i) + 9));
            assert(occurs_at(text, "port "@ + decimal(ps[j] as int), term_start(ps, j) + 9));
        }
    }
}

} // verus!
