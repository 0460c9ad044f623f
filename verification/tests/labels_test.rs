use konnectctl::api::api_utils::string_to_hashmap;
use konnectctl::api::labels::Labels;
use konnectctl::cli::cli_utils::validate_label;

fn value_of(labels: &Labels, key: &str) -> Option<String> {
    labels.get(&key.to_string()).cloned()
}

#[test]
fn two_labels_parse_to_two_entries() {
    let labels = string_to_hashmap("k1:v1,k2:v2".to_string());
    assert_eq!(labels.len(), 2);
    assert_eq!(value_of(&labels, "k1"), Some("v1".to_string()));
    assert_eq!(value_of(&labels, "k2"), Some("v2".to_string()));
    assert_eq!(value_of(&labels, "k3"), None);
}

#[test]
fn one_label_parses_to_one_entry() {
    let labels = string_to_hashmap("env:prod".to_string());
    assert_eq!(labels.len(), 1);
    assert_eq!(value_of(&labels, "env"), Some("prod".to_string()));
}

#[test]
fn a_label_is_split_at_its_first_colon() {
    let labels = string_to_hashmap("url:http://h:80,a:".to_string());
    assert_eq!(labels.len(), 2);
    assert_eq!(value_of(&labels, "url"), Some("http://h:80".to_string()));
    assert_eq!(value_of(&labels, "a"), Some("".to_string()));
}

#[test]
fn a_later_label_replaces_an_earlier_one() {
    let labels = string_to_hashmap("a:1,b:2,a:3".to_string());
    assert_eq!(labels.len(), 2);
    assert_eq!(value_of(&labels, "a"), Some("3".to_string()));
    assert_eq!(value_of(&labels, "b"), Some("2".to_string()));
    let keys: Vec<String> = labels.entries().iter().map(|e| e.0.clone()).collect();
    assert_eq!(keys, vec!["a".to_string(), "b".to_string()]);
}

#[test]
fn labels_keep_non_ascii_text() {
    let labels = string_to_hashmap("clé:valeur é,名:値".to_string());
    assert_eq!(value_of(&labels, "clé"), Some("valeur é".to_string()));
    assert_eq!(value_of(&labels, "名"), Some("値".to_string()));
}

#[test]
fn inserting_into_labels_sets_and_replaces() {
    let mut labels = Labels::new();
    assert_eq!(labels.len(), 0);
    labels.insert("a".to_string(), "1".to_string());
    labels.insert("b".to_string(), "2".to_string());
    labels.insert("a".to_string(), "9".to_string());
    assert_eq!(labels.len(), 2);
    assert_eq!(value_of(&labels, "a"), Some("9".to_string()));
    assert_eq!(value_of(&labels, "b"), Some("2".to_string()));
    assert_eq!(value_of(&labels, ""), None);
}

#[test]
fn validation_accepts_well_formed_labels() {
    assert_eq!(validate_label("k1:v1,k2:v2"), Ok("k1:v1,k2:v2".to_string()));
    assert_eq!(validate_label("a:b"), Ok("a:b".to_string()));
    assert_eq!(validate_label(":"), Ok(":".to_string()));
    assert_eq!(validate_label("a:b:c"), Ok("a:b:c".to_string()));
}

#[test]
fn validation_rejects_an_empty_text() {
    assert_eq!(
        validate_label(""),
        Err("labels if provided should not be empty".to_string())
    );
}

#[test]
fn validation_rejects_a_segment_without_colon() {
    assert_eq!(
        validate_label("k1:v1,k2"),
        Err(
            "Invalid input k1:v1,k2 Labels must be of format key1:value1,key2:value2"
                .to_string()
        )
    );
    assert!(validate_label("abc").is_err());
    assert!(validate_label("a:b,").is_err());
    assert!(validate_label(",a:b").is_err());
    assert!(validate_label("a:b,,c:d").is_err());
    assert!(validate_label(",").is_err());
}
