use dns_setter::domain::{DnsOperation, DnsProvider, OperationResult};
use dns_setter::netsh::{
    active_adapter_in, add_secondary_dns_args, clear_dns_args, clear_dns_with_result,
    decode_output, get_active_adapter, get_current_dns, run_operation_step, set_dns_with_result,
    set_primary_dns_args, show_dns_args, show_interfaces_args, test_dns_result,
    test_dns_with_result, NetshAction, NetshOutput,
};

fn strings(v: &[&str]) -> Vec<String> {
    v.iter().map(|s| s.to_string()).collect()
}

fn ok(stdout: &str) -> NetshOutput {
    NetshOutput { success: true, stdout: stdout.as_bytes().to_vec(), stderr: Vec::new() }
}

fn failed(stderr: &str) -> NetshOutput {
    NetshOutput { success: false, stdout: Vec::new(), stderr: stderr.as_bytes().to_vec() }
}

const INTERFACES: &str = "\r\nAdmin State    State          Type             Interface Name\r\n-------------------------------------------------------------------------\r\nEnabled        Disconnected   Dedicated        Wi-Fi\r\nEnabled        Connected      Dedicated        Ethernet\r\nEnabled        Connected      Dedicated        Other\r\n";

const DNS_STATIC: &str = "\r\nConfiguration for interface \"Ethernet\"\r\n    Statically Configured DNS Servers:    8.8.8.8\r\n                                          1.1.1.1\r\n    Register with which suffix:           Primary only\r\n\r\n";

#[test]
fn command_arguments() {
    assert_eq!(show_interfaces_args(), strings(&["interface", "show", "interface"]));
    assert_eq!(
        show_dns_args("Ethernet"),
        strings(&["interface", "ip", "show", "dns", "name=Ethernet"])
    );
    assert_eq!(
        set_primary_dns_args("Ethernet", "8.8.8.8"),
        strings(&["interface", "ipv4", "set", "dns", "name=Ethernet", "static", "8.8.8.8"])
    );
    assert_eq!(
        add_secondary_dns_args("Ethernet", "1.1.1.1"),
        strings(&["interface", "ipv4", "add", "dns", "name=Ethernet", "1.1.1.1", "index=2"])
    );
    assert_eq!(
        clear_dns_args("Ethernet"),
        strings(&["interface", "ipv4", "set", "dns", "name=Ethernet", "source=dhcp"])
    );
}

#[test]
fn active_adapter_is_first_connected_dedicated_line() {
    assert_eq!(get_active_adapter(INTERFACES.as_bytes()), Some("Ethernet".to_string()));
}

#[test]
fn active_adapter_is_the_whole_interface_name() {
    let text = "Enabled   Connected   Dedicated   Wi-Fi 2  \r\n";
    assert_eq!(active_adapter_in(text), Some("Wi-Fi 2".to_string()));
    let listing = "Admin State    State          Type             Interface Name\nEnabled        Connected      Dedicated        Ethernet 2";
    assert_eq!(get_active_adapter(listing.as_bytes()), Some("Ethernet 2".to_string()));
}

#[test]
fn active_adapter_line_without_a_name() {
    assert_eq!(active_adapter_in("Enabled Connected Dedicated   \n"), None);
}

#[test]
fn active_adapter_needs_both_words() {
    assert_eq!(active_adapter_in("Enabled Connected Loopback lo\nEnabled Disconnected Dedicated eth0"), None);
    assert_eq!(active_adapter_in(""), None);
    assert_eq!(active_adapter_in("\n\n"), None);
}

#[test]
fn active_adapter_on_last_line_without_newline() {
    assert_eq!(active_adapter_in("x\nEnabled Dedicated Connected eth1"), Some("eth1".to_string()));
}

#[test]
fn lossy_decoding_replaces_invalid_bytes() {
    assert_eq!(decode_output(b"ab\xffcd"), "ab\u{fffd}cd".to_string());
    assert_eq!(decode_output("Wi\u{e9}".as_bytes()), "Wi\u{e9}".to_string());
}

#[test]
fn current_dns_finds_addresses_in_order() {
    assert_eq!(get_current_dns(DNS_STATIC.as_bytes()), strings(&["8.8.8.8", "1.1.1.1"]));
}

#[test]
fn current_dns_of_dhcp_output() {
    let out = "Configuration for interface \"Ethernet\"\n    DNS servers configured through DHCP:  None\n";
    assert!(get_current_dns(out.as_bytes()).is_empty());
}

#[test]
fn current_dns_respects_word_boundaries() {
    assert_eq!(get_current_dns(b"a 1.2.3.4 b 10.0.0.1x 5.6.7.8.9"), strings(&["1.2.3.4", "5.6.7.8"]));
}

#[test]
fn set_dns_runs_primary_then_secondary() {
    let mut outputs = Vec::new();
    match set_dns_with_result("Ethernet", "8.8.8.8", "1.1.1.1", &outputs) {
        NetshAction::Run(args) => assert_eq!(args, set_primary_dns_args("Ethernet", "8.8.8.8")),
        NetshAction::Finish(r) => panic!("finished early: {:?}", r),
    }
    outputs.push(ok(""));
    match set_dns_with_result("Ethernet", "8.8.8.8", "1.1.1.1", &outputs) {
        NetshAction::Run(args) => assert_eq!(args, add_secondary_dns_args("Ethernet", "1.1.1.1")),
        NetshAction::Finish(r) => panic!("finished early: {:?}", r),
    }
    outputs.push(ok(""));
    match set_dns_with_result("Ethernet", "8.8.8.8", "1.1.1.1", &outputs) {
        NetshAction::Finish(r) => assert_eq!(
            r,
            OperationResult::Success(
                "DNS servers 8.8.8.8 and 1.1.1.1 set successfully for 'Ethernet'".to_string()
            )
        ),
        NetshAction::Run(args) => panic!("unexpected command {:?}", args),
    }
}

#[test]
fn set_dns_reports_primary_failure() {
    let outputs = vec![failed("The parameter is incorrect.")];
    match set_dns_with_result("Ethernet", "8.8.8.8", "1.1.1.1", &outputs) {
        NetshAction::Finish(r) => assert_eq!(
            r,
            OperationResult::Error(
                "Error setting primary DNS 8.8.8.8: The parameter is incorrect.".to_string()
            )
        ),
        NetshAction::Run(args) => panic!("unexpected command {:?}", args),
    }
}

#[test]
fn set_dns_reports_secondary_failure() {
    let outputs = vec![ok(""), failed("denied")];
    match set_dns_with_result("Ethernet", "8.8.8.8", "1.1.1.1", &outputs) {
        NetshAction::Finish(r) => assert_eq!(
            r,
            OperationResult::Error("Error setting secondary DNS 1.1.1.1: denied".to_string())
        ),
        NetshAction::Run(args) => panic!("unexpected command {:?}", args),
    }
}

#[test]
fn clear_dns_results() {
    match clear_dns_with_result("Ethernet", &Vec::new()) {
        NetshAction::Run(args) => assert_eq!(args, clear_dns_args("Ethernet")),
        NetshAction::Finish(r) => panic!("finished early: {:?}", r),
    }
    match clear_dns_with_result("Ethernet", &vec![ok("")]) {
        NetshAction::Finish(r) => assert_eq!(
            r,
            OperationResult::Success("DNS reset to DHCP successfully for 'Ethernet'".to_string())
        ),
        NetshAction::Run(args) => panic!("unexpected command {:?}", args),
    }
    match clear_dns_with_result("Ethernet", &vec![failed("no")]) {
        NetshAction::Finish(r) => assert_eq!(
            r,
            OperationResult::Error("Error resetting DNS for 'Ethernet': no".to_string())
        ),
        NetshAction::Run(args) => panic!("unexpected command {:?}", args),
    }
}

#[test]
fn test_result_texts() {
    assert_eq!(
        test_dns_result(&Vec::new()),
        OperationResult::Warning("No DNS servers configured".to_string())
    );
    assert_eq!(
        test_dns_result(&strings(&["8.8.8.8", "1.1.1.1"])),
        OperationResult::Success("DNS test successful: 8.8.8.8, 1.1.1.1".to_string())
    );
    assert_eq!(
        test_dns_result(&strings(&["9.9.9.9"])),
        OperationResult::Success("DNS test successful: 9.9.9.9".to_string())
    );
}

#[test]
fn test_operation_reads_the_servers() {
    match test_dns_with_result("Ethernet", &Vec::new()) {
        NetshAction::Run(args) => assert_eq!(args, show_dns_args("Ethernet")),
        NetshAction::Finish(r) => panic!("finished early: {:?}", r),
    }
    match test_dns_with_result("Ethernet", &vec![ok(DNS_STATIC)]) {
        NetshAction::Finish(r) => assert_eq!(
            r,
            OperationResult::Success("DNS test successful: 8.8.8.8, 1.1.1.1".to_string())
        ),
        NetshAction::Run(args) => panic!("unexpected command {:?}", args),
    }
}

#[test]
fn operation_without_adapter_fails_at_once() {
    for op in [DnsOperation::Clear, DnsOperation::Test, DnsOperation::SetDns(DnsProvider::quad9())] {
        match run_operation_step(&op, &None, &Vec::new()) {
            NetshAction::Finish(r) => {
                assert_eq!(r, OperationResult::Error("No Internet Connection Found".to_string()))
            }
            NetshAction::Run(args) => panic!("unexpected command {:?}", args),
        }
    }
}

#[test]
fn operation_set_uses_the_provider_servers() {
    let op = DnsOperation::SetDns(DnsProvider::quad9());
    let adapter = Some("Ethernet".to_string());
    match run_operation_step(&op, &adapter, &Vec::new()) {
        NetshAction::Run(args) => assert_eq!(args, set_primary_dns_args("Ethernet", "9.9.9.9")),
        NetshAction::Finish(r) => panic!("finished early: {:?}", r),
    }
    match run_operation_step(&op, &adapter, &vec![ok("")]) {
        NetshAction::Run(args) => {
            assert_eq!(args, add_secondary_dns_args("Ethernet", "149.112.112.112"))
        }
        NetshAction::Finish(r) => panic!("finished early: {:?}", r),
    }
    match run_operation_step(&op, &adapter, &vec![failed("x")]) {
        NetshAction::Finish(r) => assert_eq!(
            r,
            OperationResult::Error("Error setting primary DNS 9.9.9.9: x".to_string())
        ),
        NetshAction::Run(args) => panic!("unexpected command {:?}", args),
    }
}

#[test]
fn every_operation_finishes_within_two_commands() {
    let adapter = Some("eth0".to_string());
    for op in [DnsOperation::Clear, DnsOperation::Test, DnsOperation::SetDns(DnsProvider::radar())] {
        let mut outputs = Vec::new();
        let mut runs = 0;
        loop {
            match run_operation_step(&op, &adapter, &outputs) {
                NetshAction::Run(_) => {
                    runs += 1;
                    outputs.push(ok(""));
                }
                NetshAction::Finish(_) => break,
            }
            assert!(runs <= 2);
        }
    }
}

#[test]
fn valid_utf8_output_is_read_as_it_is() {
    assert_eq!(decode_output(b"a"), "a".to_string());
    assert_eq!(get_active_adapter("Enabled Connected Dedicated Wi\u{e9}".as_bytes()), Some("Wi\u{e9}".to_string()));
}
