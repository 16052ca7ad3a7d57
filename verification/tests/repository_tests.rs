use cat_database_server::entity::Cat;
use cat_database_server::repository::{CatFilter, CatRepository};

fn cat(id: u32, name: &str, breed: &str, is_indoor: bool) -> Cat {
    Cat {
        id,
        name: name.to_string(),
        age: 1,
        breed: breed.to_string(),
        color: "Grey".to_string(),
        is_indoor,
        favorite_toy: "Ball".to_string(),
    }
}

fn three_cats() -> CatRepository {
    let mut cats = CatRepository::new();
    cats.insert(cat(7, "Tama", "Siamese", true));
    cats.insert(cat(3, "Momo", "Maine Coon", false));
    cats.insert(cat(9, "Sora", "Siamese mix", true));
    cats
}

#[test]
fn a_new_repository_is_empty() {
    let cats = CatRepository::new();
    assert_eq!(cats.len(), 0);
    assert!(cats.all().is_empty());
    assert!(cats.get(1).is_none());
}

#[test]
fn get_finds_the_cat_with_the_id() {
    let cats = three_cats();
    assert_eq!(cats.get(3).map(|c| c.name.as_str()), Some("Momo"));
    assert_eq!(cats.get(7).map(|c| c.name.as_str()), Some("Tama"));
    assert_eq!(cats.get(9), Some(&cat(9, "Sora", "Siamese mix", true)));
}

#[test]
fn get_of_an_absent_id_is_none() {
    let cats = three_cats();
    assert!(cats.get(0).is_none());
    assert!(cats.get(8).is_none());
    assert!(cats.get(u32::MAX).is_none());
}

#[test]
fn all_keeps_the_order_of_insertion() {
    let cats = three_cats();
    let ids: Vec<u32> = cats.all().iter().map(|c| c.id).collect();
    assert_eq!(ids, vec![7, 3, 9]);
    assert_eq!(cats.all().len(), cats.len());
}

#[test]
fn all_gives_the_same_order_every_time() {
    let cats = three_cats();
    assert_eq!(cats.all(), cats.all());
}

#[test]
fn insert_replaces_the_cat_with_the_same_id_in_place() {
    let mut cats = three_cats();
    cats.insert(cat(3, "Mimi", "Bengal", true));
    assert_eq!(cats.len(), 3);
    let names: Vec<&str> = cats.all().iter().map(|c| c.name.as_str()).collect();
    assert_eq!(names, vec!["Tama", "Mimi", "Sora"]);
    assert_eq!(cats.get(3).map(|c| c.breed.as_str()), Some("Bengal"));
}

#[test]
fn insert_of_a_new_id_appends() {
    let mut cats = three_cats();
    cats.insert(cat(1, "Hana", "Ragdoll", true));
    assert_eq!(cats.len(), 4);
    let ids: Vec<u32> = cats.all().iter().map(|c| c.id).collect();
    assert_eq!(ids, vec![7, 3, 9, 1]);
}

#[test]
fn filter_by_breed_keeps_the_matches_in_order() {
    let cats = three_cats();
    let found = cats.filter(&CatFilter::BreedContains("Siamese".to_string()));
    let ids: Vec<u32> = found.iter().map(|c| c.id).collect();
    assert_eq!(ids, vec![7, 9]);
}

#[test]
fn filter_by_breed_is_exact_in_case() {
    let cats = three_cats();
    assert!(cats.filter(&CatFilter::BreedContains("siamese".to_string())).is_empty());
}

#[test]
fn filter_by_the_empty_breed_keeps_every_cat() {
    let cats = three_cats();
    assert_eq!(cats.filter(&CatFilter::BreedContains(String::new())).len(), 3);
}

#[test]
fn filter_indoor_leaves_outdoor_cats_out() {
    let cats = three_cats();
    let found = cats.filter(&CatFilter::Indoor);
    let ids: Vec<u32> = found.iter().map(|c| c.id).collect();
    assert_eq!(ids, vec![7, 9]);
}

#[test]
fn a_filter_never_gives_more_than_there_is() {
    let cats = three_cats();
    for filter in [
        CatFilter::Indoor,
        CatFilter::BreedContains(String::new()),
        CatFilter::BreedContains("Maine".to_string()),
        CatFilter::BreedContains("Sphynx".to_string()),
    ] {
        assert!(cats.filter(&filter).len() <= cats.len());
    }
}

#[test]
fn a_filter_accepts_cat_by_cat() {
    let tama = cat(7, "Tama", "Siamese", true);
    let momo = cat(3, "Momo", "Maine Coon", false);
    assert!(CatFilter::Indoor.accepts(&tama));
    assert!(!CatFilter::Indoor.accepts(&momo));
    assert!(CatFilter::BreedContains("Coon".to_string()).accepts(&momo));
    assert!(!CatFilter::BreedContains("Coon".to_string()).accepts(&tama));
}

#[test]
fn a_replaced_cat_is_the_one_that_is_found_and_listed() {
    let mut cats = three_cats();
    cats.insert(cat(9, "Sora", "Sphynx", false));
    assert_eq!(cats.get(9), Some(&cat(9, "Sora", "Sphynx", false)));
    assert_eq!(cats.all()[2], &cat(9, "Sora", "Sphynx", false));
    let indoor: Vec<u32> = cats.filter(&CatFilter::Indoor).iter().map(|c| c.id).collect();
    assert_eq!(indoor, vec![7]);
}

#[test]
fn many_cats_are_listed_as_they_came_in() {
    let mut cats = CatRepository::new();
    let ids: Vec<u32> = (0..200).map(|n| (n * 7919) % 1000).collect();
    for id in &ids {
        cats.insert(cat(*id, "Cat", "Mix", id % 2 == 0));
    }
    let mut expected: Vec<u32> = Vec::new();
    for id in &ids {
        if !expected.contains(id) {
            expected.push(*id);
        }
    }
    let listed: Vec<u32> = cats.all().iter().map(|c| c.id).collect();
    assert_eq!(listed, expected);
    assert_eq!(cats.len(), expected.len());
    for id in &ids {
        assert_eq!(cats.get(*id).map(|c| c.id), Some(*id));
    }
    assert!(cats.get(1001).is_none());
}
