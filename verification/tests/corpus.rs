use moray_bench::corpus::Corpus;
use moray_bench::generator::draw_storage_nodes;
use moray_bench::generator::gen_test_objects;
use moray_bench::generator::place_object;
use moray_bench::mutation::alter_objects;
use moray_bench::mutation::alter_objects_with;
use moray_bench::mutation::relocate;
use moray_bench::mutation::Relocation;
use moray_bench::mutation::TOKEN_LENGTH;
use moray_bench::object::DomainObject;
use moray_bench::object::PlacementDescriptor;

fn record(id: &str) -> DomainObject {
    DomainObject { object_id: id.to_string(), placements: Vec::new() }
}

fn records(count: usize) -> Vec<DomainObject> {
    (0..count).map(|i| record(&format!("object-{}", i))).collect()
}

fn placements_of(object: &DomainObject) -> Vec<(String, String)> {
    object.placements.iter().map(|p| (p.datacenter.clone(), p.storage_id.clone())).collect()
}

fn snapshot(corpus: &Corpus) -> Vec<(String, Vec<(String, String)>)> {
    (0..corpus.len())
        .map(|i| {
            let object = corpus.object_at(i);
            (object.object_id.clone(), placements_of(object))
        })
        .collect()
}

#[test]
fn placement_names_the_storage_node() {
    let placement = PlacementDescriptor::new("foo", 3);
    assert_eq!(placement.datacenter, "foo");
    assert_eq!(placement.storage_id, "3.stor.domain");
    let placement = PlacementDescriptor::new("east", 65535);
    assert_eq!(placement.storage_id, "65535.stor.domain");
    let copy = placement.clone();
    assert_eq!(copy.datacenter, "east");
    assert_eq!(copy.storage_id, "65535.stor.domain");
}

#[test]
fn corpus_files_objects_under_their_identifier() {
    let mut corpus = Corpus::new();
    assert_eq!(corpus.len(), 0);
    corpus.insert(record("a"));
    corpus.insert(record("b"));
    assert_eq!(corpus.len(), 2);
    assert!(corpus.contains_key("a"));
    assert!(!corpus.contains_key("c"));
    assert_eq!(corpus.get("b").map(|o| o.object_id.clone()), Some("b".to_string()));
    assert!(corpus.get("c").is_none());
    assert_eq!(corpus.object_at(0).object_id, "a");
    assert_eq!(corpus.object_at(1).object_id, "b");
}

#[test]
fn corpus_replaces_an_object_with_the_same_identifier() {
    let mut corpus = Corpus::new();
    corpus.insert(record("a"));
    corpus.insert(record("b"));
    let mut second = record("a");
    second.placements.push(PlacementDescriptor::new("foo", 1));
    corpus.insert(second);
    assert_eq!(corpus.len(), 2);
    assert_eq!(corpus.get("a").map(|o| o.placements.len()), Some(1));
    assert_eq!(corpus.object_at(0).object_id, "a");
}

#[test]
fn generator_returns_one_key_per_distinct_record() {
    for count in [0usize, 1, 2, 100] {
        let corpus = gen_test_objects(&records(count));
        assert_eq!(corpus.len(), count);
        for i in 0..count {
            assert!(corpus.contains_key(&format!("object-{}", i)));
        }
    }
}

#[test]
fn generator_keeps_one_object_for_a_repeated_identifier() {
    let list = vec![record("a"), record("b"), record("a")];
    let corpus = gen_test_objects(&list);
    assert_eq!(corpus.len(), 2);
    assert!(corpus.contains_key("a"));
    assert!(corpus.contains_key("b"));
}

#[test]
fn generated_objects_have_two_placements_on_the_drawn_nodes() {
    let mut list = records(200);
    list[0].placements.push(PlacementDescriptor::new("old", 9));
    let corpus = gen_test_objects(&list);
    for i in 0..corpus.len() {
        let object = corpus.object_at(i);
        let count = object.placements.len();
        assert!(count == 2 || count == 3 || count == 4);
        assert_eq!(count, 2);
        assert_eq!(object.placements[0].datacenter, "foo");
        assert_eq!(object.placements[1].datacenter, "foo");
        let first = object.placements[0].storage_id.as_str();
        let second = object.placements[1].storage_id.as_str();
        assert!(first == "1.stor.domain" || first == "2.stor.domain");
        assert!(second == "3.stor.domain" || second == "4.stor.domain");
    }
}

#[test]
fn storage_nodes_are_drawn_from_their_ranges() {
    let mut seen = [false; 5];
    for _ in 0..400 {
        let (first, second) = draw_storage_nodes();
        assert!(first == 1 || first == 2);
        assert!(second == 3 || second == 4);
        seen[first as usize] = true;
        seen[second as usize] = true;
    }
    assert_eq!(seen, [false, true, true, true, true]);
}

#[test]
fn place_object_replaces_the_placements() {
    let mut old = record("id-7");
    old.placements.push(PlacementDescriptor::new("old", 9));
    let object = place_object(&old, 2, 3);
    assert_eq!(object.object_id, "id-7");
    assert_eq!(
        placements_of(&object),
        vec![
            ("foo".to_string(), "2.stor.domain".to_string()),
            ("foo".to_string(), "3.stor.domain".to_string()),
        ]
    );
}

#[test]
fn relocation_is_a_token_of_ten_alphanumeric_characters() {
    assert_eq!(TOKEN_LENGTH, 10);
    let mut seen = Vec::new();
    for _ in 0..20 {
        let relocation = Relocation::draw();
        assert_eq!(relocation.datacenter.chars().count(), 10);
        assert!(relocation.datacenter.chars().all(|c| c.is_ascii_alphanumeric()));
        seen.push(relocation.datacenter);
    }
    seen.dedup();
    assert!(seen.len() > 1);
}

#[test]
fn relocate_drops_the_last_placement_and_appends_the_new_one() {
    let object = place_object(&record("x"), 1, 4);
    let relocation = Relocation { datacenter: "AbCdEfGhI9".to_string(), storage_number: 517 };
    let moved = relocate(&object, &relocation);
    assert_eq!(moved.object_id, "x");
    assert_eq!(
        placements_of(&moved),
        vec![
            ("foo".to_string(), "1.stor.domain".to_string()),
            ("AbCdEfGhI9".to_string(), "517.stor.domain".to_string()),
        ]
    );
    assert_eq!(object.placements.len(), 2);
    assert_eq!(object.placements[1].storage_id, "4.stor.domain");
}

#[test]
fn relocate_gives_an_object_without_placements_one() {
    let relocation = Relocation { datacenter: "dc".to_string(), storage_number: 0 };
    let moved = relocate(&record("empty"), &relocation);
    assert_eq!(placements_of(&moved), vec![("dc".to_string(), "0.stor.domain".to_string())]);
}

#[test]
fn mutation_preserves_size_and_placement_counts() {
    let corpus = gen_test_objects(&records(50));
    let altered = alter_objects(&corpus);
    assert_eq!(altered.len(), corpus.len());
    for i in 0..corpus.len() {
        let before = corpus.object_at(i);
        let after = altered.get(&before.object_id).expect("the key is kept");
        assert_eq!(after.object_id, before.object_id);
        assert_eq!(after.placements.len(), before.placements.len());
        assert_eq!(after.placements[0].storage_id, before.placements[0].storage_id);
        assert_eq!(after.placements[1].datacenter.chars().count(), 10);
        assert!(after.placements[1].storage_id.ends_with(".stor.domain"));
    }
}

#[test]
fn mutation_moves_all_objects_to_the_same_place() {
    let corpus = gen_test_objects(&records(20));
    let altered = alter_objects(&corpus);
    let first = placements_of(altered.object_at(0))[1].clone();
    for i in 0..altered.len() {
        assert_eq!(placements_of(altered.object_at(i))[1], first);
    }
}

#[test]
fn mutation_does_not_alter_its_input() {
    let corpus = gen_test_objects(&records(30));
    let before = snapshot(&corpus);
    let altered = alter_objects(&corpus);
    let again = alter_objects(&corpus);
    assert_eq!(snapshot(&corpus), before);
    assert_eq!(altered.len(), 30);
    assert_eq!(again.len(), 30);
}

#[test]
fn mutation_with_a_given_relocation_is_exact() {
    let mut corpus = Corpus::new();
    corpus.insert(place_object(&record("a"), 1, 3));
    corpus.insert(record("b"));
    let relocation = Relocation { datacenter: "0123456789".to_string(), storage_number: 42 };
    let altered = alter_objects_with(&corpus, &relocation);
    assert_eq!(
        snapshot(&altered),
        vec![
            (
                "a".to_string(),
                vec![
                    ("foo".to_string(), "1.stor.domain".to_string()),
                    ("0123456789".to_string(), "42.stor.domain".to_string()),
                ]
            ),
            ("b".to_string(), vec![("0123456789".to_string(), "42.stor.domain".to_string())]),
        ]
    );
}

#[test]
fn mutation_of_the_empty_corpus_is_empty() {
    let altered = alter_objects(&Corpus::new());
    assert_eq!(altered.len(), 0);
}
