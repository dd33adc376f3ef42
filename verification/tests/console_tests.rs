use dns_setter::console::{
    clear_dns, dns_label_text, plan_clear, ClearPlan, no_connection_message, nothing_to_clear_message, set_dns,
    ConsoleLine,
};
use dns_setter::netsh::{add_secondary_dns_args, clear_dns_args, set_primary_dns_args, NetshOutput};

fn out(success: bool, stderr: &str) -> NetshOutput {
    NetshOutput { success, stdout: Vec::new(), stderr: stderr.as_bytes().to_vec() }
}

fn text(line: &ConsoleLine) -> (bool, String) {
    match line {
        ConsoleLine::Stdout(t) => (true, t.clone()),
        ConsoleLine::Stderr(t) => (false, t.clone()),
    }
}

#[test]
fn console_set_runs_both_commands_even_after_failure() {
    let s0 = set_dns("eth0", "1.1.1.1", "1.0.0.1", &Vec::new());
    assert!(s0.print.is_empty());
    assert_eq!(s0.next, Some(set_primary_dns_args("eth0", "1.1.1.1")));
    let s1 = set_dns("eth0", "1.1.1.1", "1.0.0.1", &vec![out(false, "bad")]);
    assert_eq!(s1.print.len(), 1);
    assert_eq!(text(&s1.print[0]), (false, "Error setting primary DNS 1.1.1.1: bad".to_string()));
    assert_eq!(s1.next, Some(add_secondary_dns_args("eth0", "1.0.0.1")));
    let s2 = set_dns("eth0", "1.1.1.1", "1.0.0.1", &vec![out(false, "bad"), out(true, "")]);
    assert_eq!(
        text(&s2.print[0]),
        (true, "Secondary DNS 1.0.0.1 set successfully for 'eth0'".to_string())
    );
    assert_eq!(s2.next, None);
}

#[test]
fn console_set_reports() {
    let s1 = set_dns("eth0", "1.1.1.1", "1.0.0.1", &vec![out(true, "")]);
    assert_eq!(
        text(&s1.print[0]),
        (true, "Primary DNS 1.1.1.1 set successfully for 'eth0'".to_string())
    );
    let s2 = set_dns("eth0", "1.1.1.1", "1.0.0.1", &vec![out(true, ""), out(false, "e")]);
    assert_eq!(text(&s2.print[0]), (false, "Error setting secondary DNS 1.0.0.1: e".to_string()));
}

#[test]
fn console_clear() {
    let s0 = clear_dns("eth0", &Vec::new());
    assert_eq!(s0.next, Some(clear_dns_args("eth0")));
    let ok = clear_dns("eth0", &vec![out(true, "")]);
    assert_eq!(text(&ok.print[0]), (true, "✅ DNS reset to DHCP successfully for 'eth0'.".to_string()));
    assert_eq!(ok.next, None);
    let bad = clear_dns("eth0", &vec![out(false, "oops")]);
    assert_eq!(text(&bad.print[0]), (false, "❌ Error resetting DNS for 'eth0':\noops".to_string()));
}

#[test]
fn console_labels() {
    assert_eq!(dns_label_text(&Vec::new()), "No DNS Found.");
    assert_eq!(
        dns_label_text(&vec!["8.8.8.8".to_string(), "8.8.4.4".to_string()]),
        "Current DNS: 8.8.8.8, 8.8.4.4"
    );
    assert_eq!(text(&no_connection_message()), (true, "No Internet Connection Found.".to_string()));
    assert_eq!(text(&nothing_to_clear_message()), (true, "error clearing dns.".to_string()));
}

#[test]
fn clear_button_plan() {
    match plan_clear(false, &vec!["8.8.8.8".to_string()]) {
        ClearPlan::Report(line) => {
            assert_eq!(text(&line), (true, "No Internet Connection Found.".to_string()))
        }
        ClearPlan::ClearAdapter => panic!("cleared without an adapter"),
    }
    match plan_clear(true, &Vec::new()) {
        ClearPlan::Report(line) => assert_eq!(text(&line), (true, "error clearing dns.".to_string())),
        ClearPlan::ClearAdapter => panic!("cleared with no server"),
    }
    assert!(matches!(plan_clear(true, &vec!["8.8.8.8".to_string()]), ClearPlan::ClearAdapter));
}
