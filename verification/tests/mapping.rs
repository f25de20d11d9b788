use alabaster::error::{MappingFault, PackageError};
use alabaster::mapping::{ManifestConfig, Mapping};

fn pair(from: &str, to: &str) -> (String, String) {
    (from.to_string(), to.to_string())
}

#[test]
fn single_pair_is_read() {
    let mapping = Mapping::from_entries(&[pair("template/", "templates/")]).unwrap();
    assert_eq!(mapping.from, "template/");
    assert_eq!(mapping.to, "templates/");
}

#[test]
fn empty_declaration_is_a_missing_entry() {
    let error = Mapping::from_entries(&[]).unwrap_err();
    assert_eq!(error, PackageError::MalformedMapping(MappingFault::MissingEntry));
    assert_eq!(error.message(), "missing entry");
}

#[test]
fn two_pairs_are_multiple_entries() {
    let error = Mapping::from_entries(&[pair("a", "b"), pair("c", "d")]).unwrap_err();
    assert_eq!(error, PackageError::MalformedMapping(MappingFault::MultipleEntries));
    assert_eq!(error.message(), "multiple entries");
}

#[test]
fn three_pairs_are_multiple_entries() {
    let entries = [pair("a", "b"), pair("c", "d"), pair("e", "f")];
    assert_eq!(
        Mapping::from_entries(&entries),
        Err(PackageError::MalformedMapping(MappingFault::MultipleEntries))
    );
}

#[test]
fn repeated_pair_is_not_merged() {
    let entries = [pair("a", "b"), pair("a", "b")];
    assert_eq!(
        Mapping::from_entries(&entries),
        Err(PackageError::MalformedMapping(MappingFault::MultipleEntries))
    );
}

#[test]
fn mapping_is_written_as_one_pair() {
    let mapping = Mapping { from: "docs/manual.pdf".to_string(), to: "manual.pdf".to_string() };
    assert_eq!(mapping.to_entries(), vec![pair("docs/manual.pdf", "manual.pdf")]);
}

#[test]
fn written_mapping_reads_back() {
    let mapping = Mapping { from: "src/lib.typ".to_string(), to: "lib.typ".to_string() };
    assert_eq!(Mapping::from_entries(&mapping.to_entries()), Ok(mapping));
}

#[test]
fn read_mapping_writes_back() {
    let entries = vec![pair("assets/", "static/assets/")];
    let mapping = Mapping::from_entries(&entries).unwrap();
    assert_eq!(mapping.to_entries(), entries);
}

#[test]
fn paths_are_not_validated_when_read() {
    let mapping = Mapping::from_entries(&[pair("", "../outside/../x")]).unwrap();
    assert_eq!(mapping.from, "");
    assert_eq!(mapping.to, "../outside/../x");
}

#[test]
fn section_keeps_declaration_order() {
    let lists = vec![vec![pair("b", "2")], vec![pair("a", "1")], vec![pair("b", "3")]];
    let section = ManifestConfig::from_entries(&lists).unwrap();
    assert_eq!(
        section.map,
        vec![
            Mapping { from: "b".to_string(), to: "2".to_string() },
            Mapping { from: "a".to_string(), to: "1".to_string() },
            Mapping { from: "b".to_string(), to: "3".to_string() },
        ]
    );
}

#[test]
fn empty_section_is_read() {
    let section = ManifestConfig::from_entries(&[]).unwrap();
    assert!(section.map.is_empty());
    assert!(section.is_empty());
}

#[test]
fn section_with_a_mapping_is_not_empty() {
    let section = ManifestConfig::from_entries(&[vec![pair("a", "b")]]).unwrap();
    assert!(!section.is_empty());
}

#[test]
fn section_fails_with_its_first_fault() {
    let lists = vec![
        vec![pair("a", "1")],
        vec![pair("b", "2"), pair("c", "3")],
        vec![],
    ];
    assert_eq!(
        ManifestConfig::from_entries(&lists),
        Err(PackageError::MalformedMapping(MappingFault::MultipleEntries))
    );
    let lists = vec![vec![], vec![pair("b", "2"), pair("c", "3")]];
    assert_eq!(
        ManifestConfig::from_entries(&lists),
        Err(PackageError::MalformedMapping(MappingFault::MissingEntry))
    );
}

#[test]
fn section_is_written_one_pair_each() {
    let section = ManifestConfig {
        map: vec![
            Mapping { from: "x".to_string(), to: "y".to_string() },
            Mapping { from: "template/".to_string(), to: "templates/".to_string() },
        ],
    };
    assert_eq!(
        section.to_entries(),
        vec![vec![pair("x", "y")], vec![pair("template/", "templates/")]]
    );
}

#[test]
fn written_section_reads_back() {
    let section = ManifestConfig {
        map: vec![
            Mapping { from: "x".to_string(), to: "y".to_string() },
            Mapping { from: "z".to_string(), to: "y".to_string() },
        ],
    };
    assert_eq!(ManifestConfig::from_entries(&section.to_entries()), Ok(section));
}
