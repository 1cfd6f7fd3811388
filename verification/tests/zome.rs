use action_future::zome::{
    AgentValidator, LinkDefinition, LinkDirection, ValidatingEntryType, ZomeDefinition,
};

fn entry(name: &[u8], links: Vec<LinkDefinition>, validator: u64) -> ValidatingEntryType {
    ValidatingEntryType { name: name.to_vec(), links, validator }
}

fn link(link_type: &[u8], direction: LinkDirection, validator: u64) -> LinkDefinition {
    LinkDefinition { link_type: link_type.to_vec(), direction, validator }
}

#[test]
fn new_definition_is_empty() {
    let zd = ZomeDefinition::new();
    assert!(zd.entry_types.is_empty());
    assert!(zd.agent_entry_validator.is_none());
}

#[test]
fn define_appends_in_order() {
    let mut zd = ZomeDefinition::new();
    zd.define(entry(b"post", vec![], 1));
    zd.define(entry(b"comment", vec![], 2));
    assert_eq!(zd.entry_types.len(), 2);
    assert_eq!(zd.entry_types[0].name, b"post".to_vec());
    assert_eq!(zd.entry_types[1].name, b"comment".to_vec());
}

#[test]
fn agent_validator_latest_registration_wins() {
    let mut zd = ZomeDefinition::new();
    assert!(zd.agent_entry_validator.is_none());
    zd.define_agent_validator(AgentValidator { handle: 1 });
    zd.define_agent_validator(AgentValidator { handle: 2 });
    assert_eq!(zd.agent_entry_validator, Some(AgentValidator { handle: 2 }));
}

#[test]
fn find_entry_type_returns_first_match() {
    let mut zd = ZomeDefinition::new();
    zd.define(entry(b"post", vec![], 1));
    zd.define(entry(b"comment", vec![], 2));
    zd.define(entry(b"post", vec![], 3));
    assert_eq!(zd.find_entry_type(b"post"), Some(0));
    assert_eq!(zd.find_entry_type(b"comment"), Some(1));
    assert_eq!(zd.find_entry_type(b"tag"), None);
}

#[test]
fn find_link_definition_matches_type_and_direction() {
    let mut zd = ZomeDefinition::new();
    zd.define(entry(
        b"post",
        vec![
            link(b"author", LinkDirection::From, 10),
            link(b"comments", LinkDirection::To, 11),
        ],
        1,
    ));
    assert_eq!(
        zd.find_link_definition(b"post", b"comments", LinkDirection::To),
        Some((0, 1))
    );
    assert_eq!(
        zd.find_link_definition(b"post", b"author", LinkDirection::From),
        Some((0, 0))
    );
    // Right type, wrong direction.
    assert_eq!(
        zd.find_link_definition(b"post", b"comments", LinkDirection::From),
        None
    );
    // Unknown entry type.
    assert_eq!(
        zd.find_link_definition(b"tag", b"comments", LinkDirection::To),
        None
    );
}

#[test]
fn find_link_definition_searches_only_first_named_entry() {
    // The dispatch looks only inside the first entry type with the name.
    let mut zd = ZomeDefinition::new();
    zd.define(entry(b"post", vec![], 1));
    zd.define(entry(
        b"post",
        vec![link(b"comments", LinkDirection::To, 11)],
        2,
    ));
    assert_eq!(
        zd.find_link_definition(b"post", b"comments", LinkDirection::To),
        None
    );
}
