use desnark::structs::{Config, GateType, NetworkConfig};

#[test]
fn test_config_new() {
    let config = Config::new(4, 10, GateType::Vanilla, 2);
    assert_eq!(config.num_instances, 16);
    assert_eq!(config.log_num_instances, 4);
    assert_eq!(config.num_constraints, 1024);
    assert_eq!(config.log_num_constraints, 10);
    assert_eq!(config.gate_type, GateType::Vanilla);
    assert_eq!(config.num_witness_columns(), 3);
    assert_eq!(config.num_parties, 4);
    assert_eq!(config.log_num_parties, 2);
}

#[test]
fn test_gate_type_witness_columns() {
    assert_eq!(GateType::Vanilla.num_witness_columns(), 3);
}

#[test]
fn config_zero_logs_give_single_counts() {
    let config = Config::new(0, 0, GateType::default(), 0);
    assert_eq!(config.num_instances, 1);
    assert_eq!(config.num_constraints, 1);
    assert_eq!(config.num_parties, 1);
    assert_eq!(config.gate_type, GateType::Vanilla);
}

#[test]
fn network_config_keeps_fields() {
    let nc = NetworkConfig::new(String::from("hosts.txt"), 3);
    assert_eq!(nc.hosts_file, "hosts.txt");
    assert_eq!(nc.party_id, 3);
}
