use gql_gateway::{media, products, reviews, users};

#[test]
fn media_points_at_test_image() {
    let m = media::Query.media("42".to_string());
    assert_eq!(m.id, "42");
    assert_eq!(m.url, "http://localhost:3065/test.png");
}

#[test]
fn users_are_listed_in_order() {
    let all = users::Query.users();
    let names: Vec<&str> = all.iter().map(|u| u.name.as_str()).collect();
    assert_eq!(names, vec!["John Deere", "Abby Moore", "Tom Hubble", "Bob Thorn", "Millie Wadler"]);
    let ids: Vec<&str> = all.iter().map(|u| u.id.as_str()).collect();
    assert_eq!(ids, vec!["1", "2", "3", "4", "5"]);
}

#[test]
fn me_is_the_first_user() {
    let me = users::Query.me();
    assert_eq!(me.id, "1");
    assert_eq!(me.name, "John Deere");
}

#[test]
fn user_entity_lookup_keeps_the_key() {
    let u = users::Query.find_user_by_id("9".to_string());
    assert_eq!(u.id, "9");
    assert_eq!(u.name, "John Deere");
}

#[test]
fn catalogue_has_four_products() {
    let all = products::Query.products();
    assert_eq!(all.len(), 4);
    assert_eq!(all[3].name, "Pumpkin snuggie");
    assert_eq!(all[3].price, "$8");
}

#[test]
fn product_lookup() {
    let p = products::Query.find_product_by_id("3").unwrap();
    assert_eq!(p.name, "Tomato pillow");
    assert_eq!(p.price, "$22");
    assert!(products::Query.product("5").is_none());
    assert_eq!(products::Query.product("2").unwrap().name, "Carrot stick figure");
}

#[test]
fn purchases_by_user() {
    let u = products::Query.find_user_by_id("1".to_string());
    let bought = u.purchases();
    let ids: Vec<&str> = bought.iter().map(|p| p.id.as_str()).collect();
    assert_eq!(ids, vec!["1", "2"]);
    let two = products::User { id: "2".to_string() }.purchases();
    assert_eq!(two[0].name, "Tomato pillow");
    assert_eq!(two[1].name, "Pumpkin snuggie");
    assert!(products::User { id: "7".to_string() }.purchases().is_empty());
}

#[test]
fn purchases_naming_a_missing_product() {
    let three = products::User { id: "3".to_string() }.purchases();
    assert_eq!(three.len(), 1);
    assert_eq!(three[0].name, "Avocado plushie");
}

#[test]
fn reviews_by_author() {
    let u = reviews::Query.find_user_by_id("2".to_string());
    let written = u.reviews();
    let bodies: Vec<&str> = written.iter().map(|r| r.body.as_str()).collect();
    assert_eq!(
        bodies,
        vec!["Never slept better than with the tomato pillow", "The pumpkin is very snug!"]
    );
    assert!(reviews::User { id: "5".to_string() }.reviews().is_empty());
}

#[test]
fn reviews_of_product() {
    let p = reviews::Query.find_product_by_id("1".to_string());
    let got = p.reviews();
    let bodies: Vec<&str> = got.iter().map(|r| r.body.as_str()).collect();
    assert_eq!(bodies, vec!["Amazing avocado plushie!", "Love the plushie!"]);
}

#[test]
fn review_lookup_takes_the_first() {
    let r = reviews::Query.find_review_by_id("1").unwrap();
    assert_eq!(r.body, "Amazing avocado plushie!");
    assert_eq!(reviews::Query.review("4").unwrap().author.id, "3");
    assert!(reviews::Query.review("9").is_none());
    assert_eq!(reviews::Query.reviews().len(), 5);
}
