use peer_record::NodeType;

fn answers(node_type: NodeType) -> [bool; 4] {
    [node_type.is_beacon(), node_type.is_validator(), node_type.is_prover(), node_type.is_client()]
}

#[test]
fn beacon_is_only_a_beacon() {
    assert_eq!(answers(NodeType::Beacon), [true, false, false, false]);
}

#[test]
fn validator_is_only_a_validator() {
    assert_eq!(answers(NodeType::Validator), [false, true, false, false]);
}

#[test]
fn prover_is_only_a_prover() {
    assert_eq!(answers(NodeType::Prover), [false, false, true, false]);
}

#[test]
fn client_is_only_a_client() {
    assert_eq!(answers(NodeType::Client), [false, false, false, true]);
}

#[test]
fn every_node_type_answers_exactly_one_question_with_yes() {
    for node_type in [NodeType::Beacon, NodeType::Validator, NodeType::Prover, NodeType::Client] {
        let yes = answers(node_type).iter().filter(|held| **held).count();
        assert_eq!(yes, 1);
    }
}
