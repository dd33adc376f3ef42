//! The first, two-button version of the DNS setter, which reports each
//! `netsh` command on the console: what it prints and which command it runs
//! next.

use vstd::prelude::*;

use crate::netsh::{
    NetshOutput, add_secondary_command, add_secondary_dns_args, clear_command, clear_dns_args,
    decode_output, lossy_utf8, set_primary_command, set_primary_dns_args,
};
use crate::text::{join, join_strings};

verus! {

/// A line for standard output or for standard error.
pub enum ConsoleLine {
    Stdout(String),
    Stderr(String),
}

/// The text of a console line.
pub enum ConsoleLineView {
    Stdout(Seq<char>),
    Stderr(Seq<char>),
}

impl View for ConsoleLine {
    type V = ConsoleLineView;

    open spec fn view(&self) -> ConsoleLineView {
        match self {
            ConsoleLine::Stdout(t) => ConsoleLineView::Stdout(t@),
            ConsoleLine::Stderr(t) => ConsoleLineView::Stderr(t@),
        }
    }
}

/// What to print now, then which `netsh` command to run next, if any.
pub struct ConsoleStep {
    pub print: Vec<ConsoleLine>,
    pub next: Option<Vec<String>>,
}

/// The text of a console step.
pub struct ConsoleStepView {
    pub print: Seq<ConsoleLineView>,
    pub next: Option<Seq<Seq<char>>>,
}

impl View for ConsoleStep {
    type V = ConsoleStepView;

    open spec fn view(&self) -> ConsoleStepView {
        ConsoleStepView {
            print: self.print@.map_values(|l: ConsoleLine| l@),
            next: match self.next {
                Some(args) => Some(args.deep_view()),
                None => None,
            },
        }
    }
}

/// The report of the command that set the primary server.
pub open spec fn primary_report(adapter: Seq<char>, primary: Seq<char>, out: NetshOutput) -> ConsoleLineView {
    if out.success {
        ConsoleLineView::Stdout("Primary DNS "@ + primary + " set successfully for '"@ + adapter + "'"@)
    } else {
        ConsoleLineView::Stderr("Error setting primary DNS "@ + primary + ": "@ + lossy_utf8(out.stderr@))
    }
}

/// The report of the command that added the secondary server.
pub open spec fn secondary_report(adapter: Seq<char>, secondary: Seq<char>, out: NetshOutput) -> ConsoleLineView {
    if out.success {
        ConsoleLineView::Stdout(
            "Secondary DNS "@ + secondary + " set successfully for '"@ + adapter + "'"@,
        )
    } else {
        ConsoleLineView::Stderr(
            "Error setting secondary DNS "@ + secondary + ": "@ + lossy_utf8(out.stderr@),
        )
    }
}

/// The report of the command that handed the adapter back to DHCP.
pub open spec fn clear_report(adapter: Seq<char>, out: NetshOutput) -> ConsoleLineView {
    if out.success {
        ConsoleLineView::Stdout("✅ DNS reset to DHCP successfully for '"@ + adapter + "'."@)
    } else {
        ConsoleLineView::Stderr(
            "❌ Error resetting DNS for '"@ + adapter + "':\n"@ + lossy_utf8(out.stderr@),
        )
    }
}

/// Setting servers from the console: both commands run whatever the first
/// one gave, and each is reported as soon as it finished.
pub open spec fn console_set_step(
    adapter: Seq<char>,
    primary: Seq<char>,
    secondary: Seq<char>,
    outputs: Seq<NetshOutput>,
) -> ConsoleStepView {
    if outputs.len() == 0 {
        ConsoleStepView {
            print: Seq::empty(),
            next: Some(set_primary_command(adapter, primary)),
        }
    } else if outputs.len() == 1 {
        ConsoleStepView {
            print: seq![primary_report(adapter, primary, outputs[0])],
            next: Some(add_secondary_command(adapter, secondary)),
        }
    } else {
        ConsoleStepView {
            print: seq![secondary_report(adapter, secondary, outputs[1])],
            next: None,
        }
    }
}

/// Handing the adapter back to DHCP from the console.
pub open spec fn console_clear_step(adapter: Seq<char>, outputs: Seq<NetshOutput>) -> ConsoleStepView {
    if outputs.len() == 0 {
        ConsoleStepView { print: Seq::empty(), next: Some(clear_command(adapter)) }
    } else {
        ConsoleStepView { print: seq![clear_report(adapter, outputs[0])], next: None }
    }
}

/// The line that the window shows for the DNS servers last read.
pub open spec fn dns_label(dns: Seq<Seq<char>>) -> Seq<char> {
    if dns.len() == 0 {
        "No DNS Found."@
    } else {
        "Current DNS: "@ + join(dns, ", "@)
    }
}

/// Printed when no active adapter was found.
pub open spec fn no_connection_line() -> ConsoleLineView {
    ConsoleLineView::Stdout("No Internet Connection Found."@)
}

/// Printed when there was nothing to clear.
pub open spec fn nothing_to_clear_line() -> ConsoleLineView {
    ConsoleLineView::Stdout("error clearing dns."@)
}

fn report_set_command(
    adapter: &str,
    done_prefix: &str,
    failed_prefix: &str,
    server: &str,
    out: &NetshOutput,
) -> (line: ConsoleLine)
    ensures
        out.success ==> line@ == ConsoleLineView::Stdout(
            done_prefix@ + server@ + " set successfully for '"@ + adapter@ + "'"@,
        ),
        !out.success ==> line@ == ConsoleLineView::Stderr(
            failed_prefix@ + server@ + ": "@ + lossy_utf8(out.stderr@),
        ),
{
    if out.success {
        ConsoleLine::Stdout(
            String::from_str(done_prefix).concat(server).concat(" set successfully for '").concat(
                adapter,
            ).concat("'"),
        )
    } else {
        let err = decode_output(out.stderr.as_slice());
        ConsoleLine::Stderr(
            String::from_str(failed_prefix).concat(server).concat(": ").concat(err.as_str()),
        )
    }
}

/// Set DNS servers from the console (see `console_set_step`).
pub fn set_dns(adapter: &str, primary: &str, secondary: &str, outputs: &Vec<NetshOutput>) -> (step:
    ConsoleStep)
    ensures
        step@ == console_set_step(adapter@, primary@, secondary@, outputs@),
{
    if outputs.len() == 0 {
        let step = ConsoleStep {
            print: Vec::new(),
            next: Some(set_primary_dns_args(adapter, primary)),
        };
        assert(step@.print =~= Seq::<ConsoleLineView>::empty());
        return step;
    }
    if outputs.len() == 1 {
        let line = report_set_command(
            adapter,
            "Primary DNS ",
            "Error setting primary DNS ",
            primary,
            &outputs[0],
        );
        let mut print: Vec<ConsoleLine> = Vec::new();
        print.push(line);
        let step = ConsoleStep { print, next: Some(add_secondary_dns_args(adapter, secondary)) };
        assert(step@.print =~= seq![primary_report(adapter@, primary@, outputs@[0])]);
        return step;
    }
    let line = report_set_command(
        adapter,
        "Secondary DNS ",
        "Error setting secondary DNS ",
        secondary,
        &outputs[1],
    );
    let mut print: Vec<ConsoleLine> = Vec::new();
    print.push(line);
    let step = ConsoleStep { print, next: None };
    assert(step@.print =~= seq![secondary_report(adapter@, secondary@, outputs@[1])]);
    step
}

/// Hand the adapter back to DHCP from the console (see `console_clear_step`).
pub fn clear_dns(interface: &str, outputs: &Vec<NetshOutput>) -> (step: ConsoleStep)
    ensures
        step@ == console_clear_step(interface@, outputs@),
{
    if outputs.len() == 0 {
        let step = ConsoleStep { print: Vec::new(), next: Some(clear_dns_args(interface)) };
        assert(step@.print =~= Seq::<ConsoleLineView>::empty());
        return step;
    }
    let line = if outputs[0].success {
        ConsoleLine::Stdout(
            String::from_str("✅ DNS reset to DHCP successfully for '").concat(interface).concat(
                "'.",
            ),
        )
    } else {
        let err = decode_output(outputs[0].stderr.as_slice());
        ConsoleLine::Stderr(
            String::from_str("❌ Error resetting DNS for '").concat(interface).concat("':\n").concat(
                err.as_str(),
            ),
        )
    };
    let mut print: Vec<ConsoleLine> = Vec::new();
    print.push(line);
    let step = ConsoleStep { print, next: None };
    assert(step@.print =~= seq![clear_report(interface@, outputs@[0])]);
    step
}

/// The line that the window shows for the DNS servers last read.
pub fn dns_label_text(dns: &Vec<String>) -> (label: String)
    ensures
        label@ == dns_label(dns.deep_view()),
{
    if dns.len() == 0 {
        String::from_str("No DNS Found.")
    } else {
        String::from_str("Current DNS: ").concat(join_strings(dns, ", ").as_str())
    }
}

/// The line printed when no active adapter was found.
pub fn no_connection_message() -> (line: ConsoleLine)
    ensures
        line@ == no_connection_line(),
{
    ConsoleLine::Stdout(String::from_str("No Internet Connection Found."))
}

/// The line printed when there was nothing to clear.
pub fn nothing_to_clear_message() -> (line: ConsoleLine)
    ensures
        line@ == nothing_to_clear_line(),
{
    ConsoleLine::Stdout(String::from_str("error clearing dns."))
}

/// The console version runs the command that adds the secondary server
/// whatever the first command gave, and reports both commands.
pub proof fn law_console_set_runs_both_commands(
    adapter: Seq<char>,
    primary: Seq<char>,
    secondary: Seq<char>,
    first: NetshOutput,
    second: NetshOutput,
)
    ensures
        console_set_step(adapter, primary, secondary, seq![first]).next == Some(
            add_secondary_command(adapter, secondary),
        ),
        console_set_step(adapter, primary, secondary, seq![first]).print == seq![
            primary_report(adapter, primary, first),
        ],
        console_set_step(adapter, primary, secondary, seq![first, second]).next is None,
        console_set_step(adapter, primary, secondary, seq![first, second]).print == seq![
            secondary_report(adapter, secondary, second),
        ],
{
}

/// What the clear button does once the adapter was looked for and, when one
/// was found, its DNS servers were read: report that no adapter was found,
/// report that there is nothing to clear, or clear the adapter.
pub enum ClearPlan {
    Report(ConsoleLine),
    ClearAdapter,
}

/// The clear button: with no active adapter, report it; with no DNS server
/// configured, report that there is nothing to clear; else clear.
pub fn plan_clear(adapter_found: bool, dns: &Vec<String>) -> (plan: ClearPlan)
    ensures
        !adapter_found ==> (plan matches ClearPlan::Report(line) && line@ == no_connection_line()),
        adapter_found && dns@.len() == 0 ==> (plan matches ClearPlan::Report(line) && line@
            == nothing_to_clear_line()),
        adapter_found && dns@.len() > 0 ==> plan is ClearAdapter,
{
    if !adapter_found {
        ClearPlan::Report(no_connection_message())
    } else if dns.len() == 0 {
        ClearPlan::Report(nothing_to_clear_message())
    } else {
        ClearPlan::ClearAdapter
    }
}

} // verus!
