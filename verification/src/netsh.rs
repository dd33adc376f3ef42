//! The `netsh` commands that read and change the DNS settings of a network
//! adapter: which command to run next, how to read what it printed, and
//! what result an operation reports.
//!
//! Running a command is left to the caller: each `*_step` function takes the
//! outputs of the commands run so far and answers with the next command to
//! run or with the final result.

use vstd::prelude::*;
use vstd::utf8::{decode_utf8, valid_utf8};

use crate::domain::{DnsOperation, DnsProvider, OperationResult, OperationResultView};
use crate::text::{
    after_columns, chars_of, contains_range, contains_text, is_white_space, join, join_strings,
    skip_white, skip_white_range, skip_word, skip_word_range, string_from_range, trim_white_end,
    trim_white_end_range,
};

verus! {

/// What one run of `netsh` reported: whether it exited successfully, and the
/// bytes it wrote to its standard output and standard error.
pub struct NetshOutput {
    pub success: bool,
    pub stdout: Vec<u8>,
    pub stderr: Vec<u8>,
}

/// What to do next: run `netsh` with these arguments, or report the result.
pub enum NetshAction {
    Run(Vec<String>),
    Finish(OperationResult),
}

/// The text of a `NetshAction`.
pub enum NetshActionView {
    Run(Seq<Seq<char>>),
    Finish(OperationResultView),
}

impl View for NetshAction {
    type V = NetshActionView;

    open spec fn view(&self) -> NetshActionView {
        match self {
            NetshAction::Run(args) => NetshActionView::Run(args.deep_view()),
            NetshAction::Finish(r) => NetshActionView::Finish(r@),
        }
    }
}

// ---------------------------------------------------------------------------
// Outside calls
// ---------------------------------------------------------------------------

/// What `String::from_utf8_lossy` makes of `bytes`.
pub uninterp spec fn lossy_utf8(bytes: Seq<u8>) -> Seq<char>;

/// `String::from_utf8_lossy`. Trusted: the result is the text named
/// `lossy_utf8(bytes)`, and, as std documents, bytes that are valid UTF-8
/// are decoded as they are. How invalid sequences are replaced is left unsaid.
#[verifier::external_body]
fn decode_lossy(bytes: &[u8]) -> (s: String)
    ensures
        s@ == lossy_utf8(bytes@),
        valid_utf8(bytes@) ==> s@ == decode_utf8(bytes@),
{
    String::from_utf8_lossy(bytes).into_owned()
}

/// The text of bytes that a command wrote, as `String::from_utf8_lossy`
/// makes it.
pub fn decode_output(bytes: &[u8]) -> (s: String)
    ensures
        s@ == lossy_utf8(bytes@),
        valid_utf8(bytes@) ==> s@ == decode_utf8(bytes@),
{
    decode_lossy(bytes)
}

/// What `regex::Regex::new(pattern)` followed by `find_iter(text)` yields:
/// `None` when the pattern is refused, else the text of each match in order.
pub uninterp spec fn regex_find_all(pattern: Seq<char>, text: Seq<char>) -> Option<
    Seq<Seq<char>>,
>;

/// `regex::Regex::new` and `Regex::find_iter`, each match taken by
/// `Match::as_str`. Trusted: the result is the value named
/// `regex_find_all(pattern, text)`; what the matches are is left to the regex
/// crate and not stated here.
#[verifier::external_body]
fn find_all_matches(pattern: &str, text: &str) -> (res: Option<Vec<String>>)
    ensures
        match res {
            Some(v) => regex_find_all(pattern@, text@) == Some(v.deep_view()),
            None => regex_find_all(pattern@, text@) is None,
        },
{
    match regex::Regex::new(pattern) {
        Ok(re) => Some(re.find_iter(text).map(|m| m.as_str().to_string()).collect()),
        Err(_) => None,
    }
}

// ---------------------------------------------------------------------------
// Commands
// ---------------------------------------------------------------------------

/// The `name=` argument that selects an adapter.
pub open spec fn name_arg(adapter: Seq<char>) -> Seq<char> {
    "name="@ + adapter
}

/// `netsh interface show interface`.
pub open spec fn show_interfaces_command() -> Seq<Seq<char>> {
    seq!["interface"@, "show"@, "interface"@]
}

/// `netsh interface ip show dns name=<adapter>`.
pub open spec fn show_dns_command(adapter: Seq<char>) -> Seq<Seq<char>> {
    seq!["interface"@, "ip"@, "show"@, "dns"@, name_arg(adapter)]
}

/// `netsh interface ipv4 set dns name=<adapter> static <primary>`.
pub open spec fn set_primary_command(adapter: Seq<char>, primary: Seq<char>) -> Seq<Seq<char>> {
    seq!["interface"@, "ipv4"@, "set"@, "dns"@, name_arg(adapter), "static"@, primary]
}

/// `netsh interface ipv4 add dns name=<adapter> <secondary> index=2`.
pub open spec fn add_secondary_command(adapter: Seq<char>, secondary: Seq<char>) -> Seq<
    Seq<char>,
> {
    seq!["interface"@, "ipv4"@, "add"@, "dns"@, name_arg(adapter), secondary, "index=2"@]
}

/// `netsh interface ipv4 set dns name=<adapter> source=dhcp`.
pub open spec fn clear_command(adapter: Seq<char>) -> Seq<Seq<char>> {
    seq!["interface"@, "ipv4"@, "set"@, "dns"@, name_arg(adapter), "source=dhcp"@]
}

fn name_argument(adapter: &str) -> (s: String)
    ensures
        s@ == name_arg(adapter@),
{
    String::from_str("name=").concat(adapter)
}

/// Arguments that list the network interfaces.
pub fn show_interfaces_args() -> (args: Vec<String>)
    ensures
        args.deep_view() == show_interfaces_command(),
{
    let mut args: Vec<String> = Vec::new();
    args.push(String::from_str("interface"));
    args.push(String::from_str("show"));
    args.push(String::from_str("interface"));
    assert(args.deep_view() =~= show_interfaces_command());
    args
}

/// Arguments that show the DNS servers of `adapter`.
pub fn show_dns_args(adapter: &str) -> (args: Vec<String>)
    ensures
        args.deep_view() == show_dns_command(adapter@),
{
    let mut args: Vec<String> = Vec::new();
    args.push(String::from_str("interface"));
    args.push(String::from_str("ip"));
    args.push(String::from_str("show"));
    args.push(String::from_str("dns"));
    args.push(name_argument(adapter));
    assert(args.deep_view() =~= show_dns_command(adapter@));
    args
}

/// Arguments that make `primary` the only, static, DNS server of `adapter`.
pub fn set_primary_dns_args(adapter: &str, primary: &str) -> (args: Vec<String>)
    ensures
        args.deep_view() == set_primary_command(adapter@, primary@),
{
    let mut args: Vec<String> = Vec::new();
    args.push(String::from_str("interface"));
    args.push(String::from_str("ipv4"));
    args.push(String::from_str("set"));
    args.push(String::from_str("dns"));
    args.push(name_argument(adapter));
    args.push(String::from_str("static"));
    args.push(String::from_str(primary));
    assert(args.deep_view() =~= set_primary_command(adapter@, primary@));
    args
}

/// Arguments that add `secondary` as the second DNS server of `adapter`.
pub fn add_secondary_dns_args(adapter: &str, secondary: &str) -> (args: Vec<String>)
    ensures
        args.deep_view() == add_secondary_command(adapter@, secondary@),
{
    let mut args: Vec<String> = Vec::new();
    args.push(String::from_str("interface"));
    args.push(String::from_str("ipv4"));
    args.push(String::from_str("add"));
    args.push(String::from_str("dns"));
    args.push(name_argument(adapter));
    args.push(String::from_str(secondary));
    args.push(String::from_str("index=2"));
    assert(args.deep_view() =~= add_secondary_command(adapter@, secondary@));
    args
}

/// Arguments that hand the DNS settings of `adapter` back to DHCP.
pub fn clear_dns_args(adapter: &str) -> (args: Vec<String>)
    ensures
        args.deep_view() == clear_command(adapter@),
{
    let mut args: Vec<String> = Vec::new();
    args.push(String::from_str("interface"));
    args.push(String::from_str("ipv4"));
    args.push(String::from_str("set"));
    args.push(String::from_str("dns"));
    args.push(name_argument(adapter));
    args.push(String::from_str("source=dhcp"));
    assert(args.deep_view() =~= clear_command(adapter@));
    args
}

// ---------------------------------------------------------------------------
// Reading what netsh printed
// ---------------------------------------------------------------------------

/// The first line of `s`: its characters up to the first `'\n'`.
pub open spec fn first_line(s: Seq<char>) -> Seq<char>
    decreases s.len(),
{
    if s.len() == 0 || s[0] == '\n' {
        Seq::empty()
    } else {
        seq![s[0]] + first_line(s.drop_first())
    }
}

/// A line of `netsh interface show interface` that describes a connected
/// dedicated adapter.
pub open spec fn is_active_adapter_line(line: Seq<char>) -> bool {
    contains_text(line, "Connected"@) && contains_text(line, "Dedicated"@)
}

/// The "Interface Name" column of a line of `netsh interface show interface`:
/// what follows its first three columns (admin state, state, type), without
/// the whitespace around it.
pub open spec fn interface_name(line: Seq<char>) -> Seq<char> {
    trim_white_end(skip_white(after_columns(line, 3)))
}

/// The name of the adapter that `netsh interface show interface` reports as
/// active: the interface name on the first line, in the order of
/// `str::lines`, that holds both `Connected` and `Dedicated`; `None` when no
/// line does, or when that line has no name after its three columns.
///
/// A `'\r'` that ends a line is kept in it here; it is whitespace and changes
/// neither the test nor the trimmed name.
pub open spec fn active_adapter(s: Seq<char>) -> Option<Seq<char>>
    decreases s.len(),
{
    if s.len() == 0 {
        None
    } else {
        let line = first_line(s);
        if is_active_adapter_line(line) {
            if interface_name(line).len() > 0 {
                Some(interface_name(line))
            } else {
                None
            }
        } else if line.len() >= s.len() {
            None
        } else {
            active_adapter(s.skip(line.len() + 1int))
        }
    }
}

/// The adapter that the text printed by `netsh interface show interface`
/// reports as active (see `active_adapter`).
pub fn active_adapter_in(text: &str) -> (res: Option<String>)
    ensures
        match res {
            Some(a) => active_adapter(text@) == Some(a@),
            None => active_adapter(text@) is None,
        },
{
    let s = chars_of(text);
    let connected = chars_of("Connected");
    let dedicated = chars_of("Dedicated");
    let n = s.len();
    let mut start: usize = 0;
    assert(s@.skip(0) =~= s@);
    while start < n
        invariant
            start <= n == s@.len(),
            s@ == text@,
            connected@ == "Connected"@,
            dedicated@ == "Dedicated"@,
            active_adapter(text@) == active_adapter(s@.skip(start as int)),
        decreases n - start,
    {
        let mut end = start;
        while end < n && s[end] != '\n'
            invariant
                start <= end <= n == s@.len(),
                first_line(s@.skip(start as int)) == s@.subrange(start as int, end as int)
                    + first_line(s@.skip(end as int)),
            decreases n - end,
        {
            assert(s@.skip(end as int).drop_first() =~= s@.skip(end + 1));
            assert(s@.subrange(start as int, end + 1) =~= s@.subrange(start as int, end as int)
                + seq![s@[end as int]]);
            end = end + 1;
        }
        assert(first_line(s@.skip(end as int)) =~= Seq::<char>::empty());
        let ghost line = s@.subrange(start as int, end as int);
        assert(first_line(s@.skip(start as int)) =~= line);
        let active = contains_range(&s, start, end, &connected) && contains_range(
            &s,
            start,
            end,
            &dedicated,
        );
        if active {
            let mut i = start;
            let mut k: usize = 0;
            while k < 3
                invariant
                    start <= i <= end <= s@.len(),
                    k <= 3,
                    after_columns(line, 3) == after_columns(s@.subrange(i as int, end as int), (3
                        - k) as nat),
                decreases 3 - k,
            {
                let w = skip_white_range(&s, i, end);
                let e = skip_word_range(&s, w, end);
                assert(after_columns(s@.subrange(i as int, end as int), (3 - k) as nat)
                    == after_columns(s@.subrange(e as int, end as int), (3 - k - 1) as nat));
                i = e;
                k = k + 1;
            }
            assert(after_columns(line, 3) == s@.subrange(i as int, end as int));
            let a = skip_white_range(&s, i, end);
            let b = trim_white_end_range(&s, a, end);
            if a == b {
                return None;
            }
            return Some(string_from_range(&s, a, b));
        }
        if end == n {
            return None;
        }
        assert(s@.skip(start as int).skip(line.len() + 1int) =~= s@.skip(end + 1));
        start = end + 1;
    }
    None
}

/// The active adapter, read from the bytes that
/// `netsh interface show interface` wrote to its standard output.
pub fn get_active_adapter(netsh_stdout: &[u8]) -> (res: Option<String>)
    ensures
        match res {
            Some(a) => active_adapter(lossy_utf8(netsh_stdout@)) == Some(a@),
            None => active_adapter(lossy_utf8(netsh_stdout@)) is None,
        },
        valid_utf8(netsh_stdout@) ==> lossy_utf8(netsh_stdout@) == decode_utf8(netsh_stdout@),
{
    let text = decode_lossy(netsh_stdout);
    active_adapter_in(text.as_str())
}

/// The pattern that finds IPv4 addresses in the output of `netsh`.
pub open spec fn ipv4_address_pattern() -> Seq<char> {
    "\\b\\d{1,3}(?:\\.\\d{1,3}){3}\\b"@
}

/// The DNS servers that `netsh interface ip show dns` printed to `stdout`:
/// every match of `ipv4_address_pattern`, in order.
pub open spec fn current_dns(stdout: Seq<u8>) -> Seq<Seq<char>> {
    match regex_find_all(ipv4_address_pattern(), lossy_utf8(stdout)) {
        Some(found) => found,
        None => Seq::empty(),
    }
}

/// The DNS servers, read from the bytes that `netsh interface ip show dns`
/// wrote to its standard output.
pub fn get_current_dns(netsh_stdout: &[u8]) -> (dns: Vec<String>)
    ensures
        dns.deep_view() == current_dns(netsh_stdout@),
        valid_utf8(netsh_stdout@) ==> lossy_utf8(netsh_stdout@) == decode_utf8(netsh_stdout@),
{
    let text = decode_lossy(netsh_stdout);
    match find_all_matches("\\b\\d{1,3}(?:\\.\\d{1,3}){3}\\b", text.as_str()) {
        Some(found) => found,
        None => {
            let empty: Vec<String> = Vec::new();
            assert(empty.deep_view() =~= Seq::<Seq<char>>::empty());
            empty
        },
    }
}

// ---------------------------------------------------------------------------
// Operations
// ---------------------------------------------------------------------------

/// Reported when setting the primary server failed.
pub open spec fn primary_failed_message(primary: Seq<char>, stderr: Seq<u8>) -> Seq<char> {
    "Error setting primary DNS "@ + primary + ": "@ + lossy_utf8(stderr)
}

/// Reported when adding the secondary server failed.
pub open spec fn secondary_failed_message(secondary: Seq<char>, stderr: Seq<u8>) -> Seq<char> {
    "Error setting secondary DNS "@ + secondary + ": "@ + lossy_utf8(stderr)
}

/// Reported when both servers were set.
pub open spec fn set_success_message(adapter: Seq<char>, primary: Seq<char>, secondary: Seq<
    char,
>) -> Seq<char> {
    "DNS servers "@ + primary + " and "@ + secondary + " set successfully for '"@ + adapter
        + "'"@
}

/// Reported when the adapter was handed back to DHCP.
pub open spec fn clear_success_message(adapter: Seq<char>) -> Seq<char> {
    "DNS reset to DHCP successfully for '"@ + adapter + "'"@
}

/// Reported when handing the adapter back to DHCP failed.
pub open spec fn clear_failed_message(adapter: Seq<char>, stderr: Seq<u8>) -> Seq<char> {
    "Error resetting DNS for '"@ + adapter + "': "@ + lossy_utf8(stderr)
}

/// Reported when no active adapter was found.
pub open spec fn no_adapter_message() -> Seq<char> {
    "No Internet Connection Found"@
}

/// Reported by a test that found no DNS server.
pub open spec fn no_dns_message() -> Seq<char> {
    "No DNS servers configured"@
}

/// The next step of setting `primary` and `secondary` on `adapter`, given
/// the outputs of the commands run so far: set the primary server; if that
/// failed, report it; else add the secondary server; if that failed, report
/// it; else report success.
pub open spec fn set_dns_step(
    adapter: Seq<char>,
    primary: Seq<char>,
    secondary: Seq<char>,
    outputs: Seq<NetshOutput>,
) -> NetshActionView {
    if outputs.len() == 0 {
        NetshActionView::Run(set_primary_command(adapter, primary))
    } else if !outputs[0].success {
        NetshActionView::Finish(
            OperationResultView::Error(primary_failed_message(primary, outputs[0].stderr@)),
        )
    } else if outputs.len() == 1 {
        NetshActionView::Run(add_secondary_command(adapter, secondary))
    } else if !outputs[1].success {
        NetshActionView::Finish(
            OperationResultView::Error(secondary_failed_message(secondary, outputs[1].stderr@)),
        )
    } else {
        NetshActionView::Finish(
            OperationResultView::Success(set_success_message(adapter, primary, secondary)),
        )
    }
}

/// The next step of handing `adapter` back to DHCP.
pub open spec fn clear_dns_step(adapter: Seq<char>, outputs: Seq<NetshOutput>) -> NetshActionView {
    if outputs.len() == 0 {
        NetshActionView::Run(clear_command(adapter))
    } else if outputs[0].success {
        NetshActionView::Finish(OperationResultView::Success(clear_success_message(adapter)))
    } else {
        NetshActionView::Finish(
            OperationResultView::Error(clear_failed_message(adapter, outputs[0].stderr@)),
        )
    }
}

/// What a test of the DNS settings reports for the servers it found.
pub open spec fn test_outcome(dns: Seq<Seq<char>>) -> OperationResultView {
    if dns.len() == 0 {
        OperationResultView::Warning(no_dns_message())
    } else {
        OperationResultView::Success("DNS test successful: "@ + join(dns, ", "@))
    }
}

/// The next step of testing the DNS settings of `adapter`.
pub open spec fn test_dns_step(adapter: Seq<char>, outputs: Seq<NetshOutput>) -> NetshActionView {
    if outputs.len() == 0 {
        NetshActionView::Run(show_dns_command(adapter))
    } else {
        NetshActionView::Finish(test_outcome(current_dns(outputs[0].stdout@)))
    }
}

/// The text of an optional string.
pub open spec fn optional_text(s: Option<String>) -> Option<Seq<char>> {
    match s {
        Some(t) => Some(t@),
        None => None,
    }
}

/// The next step of `operation` on the active adapter `adapter`; with no
/// active adapter, the operation fails at once.
pub open spec fn operation_step(
    operation: DnsOperation,
    adapter: Option<Seq<char>>,
    outputs: Seq<NetshOutput>,
) -> NetshActionView {
    match adapter {
        None => NetshActionView::Finish(OperationResultView::Error(no_adapter_message())),
        Some(a) => match operation {
            DnsOperation::SetDns(provider) => set_dns_step(
                a,
                provider.servers().0,
                provider.servers().1,
                outputs,
            ),
            DnsOperation::Clear => clear_dns_step(a, outputs),
            DnsOperation::Test => test_dns_step(a, outputs),
        },
    }
}

/// Set DNS servers and return a result suitable for UI consumption: the
/// next step of setting `primary` and `secondary` on `interface`, given the
/// outputs of the `netsh` commands run so far (see `set_dns_step`).
pub fn set_dns_with_result(
    interface: &str,
    primary: &str,
    secondary: &str,
    outputs: &Vec<NetshOutput>,
) -> (action: NetshAction)
    ensures
        action@ == set_dns_step(interface@, primary@, secondary@, outputs@),
{
    if outputs.len() == 0 {
        return NetshAction::Run(set_primary_dns_args(interface, primary));
    }
    if !outputs[0].success {
        let err = decode_lossy(outputs[0].stderr.as_slice());
        let msg = String::from_str("Error setting primary DNS ").concat(primary).concat(
            ": ",
        ).concat(err.as_str());
        return NetshAction::Finish(OperationResult::Error(msg));
    }
    if outputs.len() == 1 {
        return NetshAction::Run(add_secondary_dns_args(interface, secondary));
    }
    if !outputs[1].success {
        let err = decode_lossy(outputs[1].stderr.as_slice());
        let msg = String::from_str("Error setting secondary DNS ").concat(secondary).concat(
            ": ",
        ).concat(err.as_str());
        return NetshAction::Finish(OperationResult::Error(msg));
    }
    let msg = String::from_str("DNS servers ").concat(primary).concat(" and ").concat(
        secondary,
    ).concat(" set successfully for '").concat(interface).concat("'");
    NetshAction::Finish(OperationResult::Success(msg))
}

/// Clear DNS and return a UI-friendly result: the next step of handing
/// `interface` back to DHCP, given the outputs of the `netsh` commands run so
/// far (see `clear_dns_step`).
pub fn clear_dns_with_result(interface: &str, outputs: &Vec<NetshOutput>) -> (action: NetshAction)
    ensures
        action@ == clear_dns_step(interface@, outputs@),
{
    if outputs.len() == 0 {
        return NetshAction::Run(clear_dns_args(interface));
    }
    if outputs[0].success {
        let msg = String::from_str("DNS reset to DHCP successfully for '").concat(
            interface,
        ).concat("'");
        NetshAction::Finish(OperationResult::Success(msg))
    } else {
        let err = decode_lossy(outputs[0].stderr.as_slice());
        let msg = String::from_str("Error resetting DNS for '").concat(interface).concat(
            "': ",
        ).concat(err.as_str());
        NetshAction::Finish(OperationResult::Error(msg))
    }
}

/// What a test of the DNS settings reports for the servers `dns` it found.
pub fn test_dns_result(dns: &Vec<String>) -> (res: OperationResult)
    ensures
        res@ == test_outcome(dns.deep_view()),
{
    if dns.len() == 0 {
        OperationResult::Warning(String::from_str("No DNS servers configured"))
    } else {
        let joined = join_strings(dns, ", ");
        OperationResult::Success(String::from_str("DNS test successful: ").concat(joined.as_str()))
    }
}

/// The next step of testing the DNS settings of `adapter`, given the
/// outputs of the `netsh` commands run so far (see `test_dns_step`).
pub fn test_dns_with_result(adapter: &str, outputs: &Vec<NetshOutput>) -> (action: NetshAction)
    ensures
        action@ == test_dns_step(adapter@, outputs@),
{
    if outputs.len() == 0 {
        return NetshAction::Run(show_dns_args(adapter));
    }
    let dns = get_current_dns(outputs[0].stdout.as_slice());
    NetshAction::Finish(test_dns_result(&dns))
}

/// The next step of `operation` on the active adapter `adapter`, given the
/// outputs of the `netsh` commands run so far (see `operation_step`).
pub fn run_operation_step(
    operation: &DnsOperation,
    adapter: &Option<String>,
    outputs: &Vec<NetshOutput>,
) -> (action: NetshAction)
    ensures
        action@ == operation_step(*operation, optional_text(*adapter), outputs@),
{
    match adapter {
        None => NetshAction::Finish(
            OperationResult::Error(String::from_str("No Internet Connection Found")),
        ),
        Some(a) => match operation {
            DnsOperation::SetDns(provider) => {
                let (primary, secondary) = provider.get_servers();
                set_dns_with_result(a.as_str(), primary.as_str(), secondary.as_str(), outputs)
            },
            DnsOperation::Clear => clear_dns_with_result(a.as_str(), outputs),
            DnsOperation::Test => test_dns_with_result(a.as_str(), outputs),
        },
    }
}

// ---------------------------------------------------------------------------
// Laws
// ---------------------------------------------------------------------------

/// Setting DNS servers reports success exactly when both `netsh` commands,
/// the one that sets the primary server and the one that adds the secondary
/// server, succeeded; the report then names both servers and the adapter.
pub proof fn law_set_dns_success_iff_both_commands_succeed(
    adapter: Seq<char>,
    primary: Seq<char>,
    secondary: Seq<char>,
    outputs: Seq<NetshOutput>,
)
    ensures
        (set_dns_step(adapter, primary, secondary, outputs) is Finish && set_dns_step(
            adapter,
            primary,
            secondary,
            outputs,
        )->Finish_0 is Success) <==> (outputs.len() >= 2 && outputs[0].success
            && outputs[1].success),
        outputs.len() >= 2 && outputs[0].success && outputs[1].success ==> set_dns_step(
            adapter,
            primary,
            secondary,
            outputs,
        ) == NetshActionView::Finish(
            OperationResultView::Success(set_success_message(adapter, primary, secondary)),
        ),
{
}

/// A successful setting of a provider's servers runs two commands, in this
/// order: the primary server is set as the static server, then the secondary
/// server is added as the second one.
pub proof fn law_set_dns_command_order(
    provider: DnsProvider,
    adapter: Seq<char>,
    first: NetshOutput,
    second: NetshOutput,
)
    requires
        first.success,
        second.success,
    ensures
        operation_step(DnsOperation::SetDns(provider), Some(adapter), Seq::empty())
            == NetshActionView::Run(set_primary_command(adapter, provider.servers().0)),
        operation_step(DnsOperation::SetDns(provider), Some(adapter), seq![first])
            == NetshActionView::Run(add_secondary_command(adapter, provider.servers().1)),
        operation_step(DnsOperation::SetDns(provider), Some(adapter), seq![first, second])
            == NetshActionView::Finish(
            OperationResultView::Success(
                set_success_message(adapter, provider.servers().0, provider.servers().1),
            ),
        ),
{
}

/// Once a command that changes the settings has failed, no further command
/// runs: setting or clearing the servers reports an error at once.
pub proof fn law_failed_command_stops_operation(
    operation: DnsOperation,
    adapter: Seq<char>,
    outputs: Seq<NetshOutput>,
)
    requires
        !(operation is Test),
        outputs.len() >= 1,
        !outputs[0].success,
    ensures
        operation_step(operation, Some(adapter), outputs) is Finish,
        operation_step(operation, Some(adapter), outputs)->Finish_0 is Error,
{
}

/// Every operation comes to an end: with no active adapter it fails before
/// running anything; clearing and testing run one command, setting at most
/// two.
pub proof fn law_operation_finishes(
    operation: DnsOperation,
    adapter: Option<Seq<char>>,
    outputs: Seq<NetshOutput>,
)
    ensures
        adapter is None ==> operation_step(operation, adapter, outputs) == NetshActionView::Finish(
            OperationResultView::Error(no_adapter_message()),
        ),
        outputs.len() >= 2 ==> operation_step(operation, adapter, outputs) is Finish,
        outputs.len() >= 1 && !(operation is SetDns) ==> operation_step(
            operation,
            adapter,
            outputs,
        ) is Finish,
{
}

/// `trim_white_end` leaves no whitespace at the end.
pub proof fn lemma_trim_white_end(s: Seq<char>)
    ensures
        trim_white_end(s).len() > 0 ==> !is_white_space(trim_white_end(s).last()),
        trim_white_end(s).len() <= s.len(),
        trim_white_end(s) == s.take(trim_white_end(s).len() as int),
    decreases s.len(),
{
    if s.len() > 0 && is_white_space(s.last()) {
        lemma_trim_white_end(s.drop_last());
        assert(s.drop_last().take(trim_white_end(s).len() as int) =~= s.take(
            trim_white_end(s).len() as int,
        ));
    } else {
        assert(s.take(s.len() as int) =~= s);
    }
}

/// `skip_white` leaves no whitespace at the start.
pub proof fn lemma_skip_white(s: Seq<char>)
    ensures
        skip_white(s).len() > 0 ==> !is_white_space(skip_white(s)[0]),
    decreases s.len(),
{
    if s.len() > 0 && is_white_space(s[0]) {
        lemma_skip_white(s.drop_first());
    }
}

/// The adapter name found in the list of interfaces is not empty and has
/// no whitespace at either end (it may hold spaces inside, as in
/// `Ethernet 2`).
pub proof fn law_active_adapter_is_trimmed(s: Seq<char>)
    ensures
        active_adapter(s) matches Some(a) ==> a.len() > 0 && !is_white_space(a[0])
            && !is_white_space(a.last()),
    decreases s.len(),
{
    if s.len() > 0 {
        let line = first_line(s);
        if is_active_adapter_line(line) {
            let t = skip_white(after_columns(line, 3));
            lemma_skip_white(after_columns(line, 3));
            lemma_trim_white_end(t);
            if trim_white_end(t).len() > 0 {
                assert(trim_white_end(t)[0] == t.take(trim_white_end(t).len() as int)[0]);
            }
        } else if line.len() < s.len() {
            law_active_adapter_is_trimmed(s.skip(line.len() + 1int));
        }
    }
}

/// Testing the DNS settings only reads them: its one command is
/// `netsh interface ip show dns name=<adapter>`, no command it asks for ever
/// changes a setting (`set` or `add`), and after that command it reports the
/// servers it found: a success that lists every one of them, or a warning
/// when there is none.
pub proof fn law_test_only_reads(adapter: Seq<char>, outputs: Seq<NetshOutput>)
    ensures
        operation_step(DnsOperation::Test, Some(adapter), Seq::empty()) == NetshActionView::Run(
            seq!["interface"@, "ip"@, "show"@, "dns"@, "name="@ + adapter],
        ),
        operation_step(DnsOperation::Test, Some(adapter), outputs) matches NetshActionView::Run(
            args,
        ) ==> args[2] == "show"@ && args[2] != "set"@ && args[2] != "add"@,
        outputs.len() >= 1 ==> operation_step(DnsOperation::Test, Some(adapter), outputs) is Finish,
        outputs.len() >= 1 && current_dns(outputs[0].stdout@).len() == 0 ==> operation_step(
            DnsOperation::Test,
            Some(adapter),
            outputs,
        ) == NetshActionView::Finish(
            OperationResultView::Warning("No DNS servers configured"@),
        ),
        outputs.len() >= 1 && current_dns(outputs[0].stdout@).len() > 0 ==> operation_step(
            DnsOperation::Test,
            Some(adapter),
            outputs,
        ) == NetshActionView::Finish(
            OperationResultView::Success(
                "DNS test successful: "@ + join(current_dns(outputs[0].stdout@), ", "@),
            ),
        ),
{
    reveal_strlit("show");
    reveal_strlit("set");
    reveal_strlit("add");
    assert("show"@.len() != "set"@.len());
    assert("show"@.len() != "add"@.len());
}

/// Every command of an operation is a `netsh interface` command on the
/// active adapter (`name=<adapter>` is its fifth argument). Clearing asks for
/// `ipv4 set dns ... source=dhcp`; setting a provider asks first for
/// `ipv4 set dns ... static <primary>`, then for
/// `ipv4 add dns ... <secondary> index=2`, with the provider's own servers.
pub proof fn law_operation_commands(
    operation: DnsOperation,
    adapter: Seq<char>,
    outputs: Seq<NetshOutput>,
)
    ensures
        operation_step(operation, Some(adapter), outputs) matches NetshActionView::Run(args) ==> (
        args[0] == "interface"@ && args[4] == "name="@ + adapter),
        operation_step(DnsOperation::Clear, Some(adapter), Seq::empty()) == NetshActionView::Run(
            seq!["interface"@, "ipv4"@, "set"@, "dns"@, "name="@ + adapter, "source=dhcp"@],
        ),
        operation is SetDns ==> operation_step(operation, Some(adapter), Seq::empty())
            == NetshActionView::Run(
            seq![
                "interface"@,
                "ipv4"@,
                "set"@,
                "dns"@,
                "name="@ + adapter,
                "static"@,
                operation->SetDns_0.servers().0,
            ],
        ),
        operation is SetDns && outputs.len() == 1 && outputs[0].success ==> operation_step(
            operation,
            Some(adapter),
            outputs,
        ) == NetshActionView::Run(
            seq![
                "interface"@,
                "ipv4"@,
                "add"@,
                "dns"@,
                "name="@ + adapter,
                operation->SetDns_0.servers().1,
                "index=2"@,
            ],
        ),
{
}

/// What each operation reports, word for word: the servers and the adapter
/// are named in the success of setting and of clearing, and a failure
/// quotes what `netsh` wrote to its standard error.
pub proof fn law_operation_reports(
    provider: DnsProvider,
    adapter: Seq<char>,
    first: NetshOutput,
    second: NetshOutput,
)
    ensures
        first.success && second.success ==> operation_step(
            DnsOperation::SetDns(provider),
            Some(adapter),
            seq![first, second],
        ) == NetshActionView::Finish(
            OperationResultView::Success(
                "DNS servers "@ + provider.servers().0 + " and "@ + provider.servers().1
                    + " set successfully for '"@ + adapter + "'"@,
            ),
        ),
        !first.success ==> operation_step(DnsOperation::SetDns(provider), Some(adapter), seq![first])
            == NetshActionView::Finish(
            OperationResultView::Error(
                "Error setting primary DNS "@ + provider.servers().0 + ": "@ + lossy_utf8(
                    first.stderr@,
                ),
            ),
        ),
        first.success && !second.success ==> operation_step(
            DnsOperation::SetDns(provider),
            Some(adapter),
            seq![first, second],
        ) == NetshActionView::Finish(
            OperationResultView::Error(
                "Error setting secondary DNS "@ + provider.servers().1 + ": "@ + lossy_utf8(
                    second.stderr@,
                ),
            ),
        ),
        first.success ==> operation_step(DnsOperation::Clear, Some(adapter), seq![first])
            == NetshActionView::Finish(
            OperationResultView::Success("DNS reset to DHCP successfully for '"@ + adapter + "'"@),
        ),
        !first.success ==> operation_step(DnsOperation::Clear, Some(adapter), seq![first])
            == NetshActionView::Finish(
            OperationResultView::Error(
                "Error resetting DNS for '"@ + adapter + "': "@ + lossy_utf8(first.stderr@),
            ),
        ),
        operation_step(DnsOperation::Clear, None, seq![first]) == NetshActionView::Finish(
            OperationResultView::Error("No Internet Connection Found"@),
        ),
{
}

/// The servers read from `netsh interface ip show dns` are the matches, in
/// order, of the IPv4 pattern `\b\d{1,3}(?:\.\d{1,3}){3}\b` (word boundary,
/// four groups of one to three digits separated by dots, word boundary) in
/// the decoded output; none when the regex crate refused the pattern.
pub proof fn law_current_dns_uses_ipv4_pattern(stdout: Seq<u8>)
    ensures
        current_dns(stdout) == match regex_find_all(
            "\\b\\d{1,3}(?:\\.\\d{1,3}){3}\\b"@,
            lossy_utf8(stdout),
        ) {
            Some(found) => found,
            None => Seq::empty(),
        },
{
}

} // verus!
