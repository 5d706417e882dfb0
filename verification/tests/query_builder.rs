use nueces::query::Query;
use nueces::query::SortDirection;

#[test]
fn select_single_field() {
    let query = Query::select("name").build();
    assert_eq!("fields name;", query)
}

#[test]
fn select_multiple_fields() {
    let fields = ["name", "date"].map(String::from);
    let query = Query::select_multiple(&fields).build();
    assert_eq!("fields name, date;", query)
}

#[test]
fn simple_where_clause() {
    let query = Query::where_("id = 5").build();
    assert_eq!("fields *; where id = 5;", query)
}

#[test]
fn multiple_where_clauses() {
    let query = Query::where_("id = 42").where_("value = 5").build();
    assert_eq!("fields *; where id = 42 & value = 5;", query)
}

#[test]
fn single_and() {
    let query = Query::where_("id = 5").and("value = 42").build();
    assert_eq!("fields *; where id = 5 & value = 42;", query)
}

#[test]
fn multiple_ands() {
    let query = Query::where_("id = 5")
        .and("value = 42")
        .and(r#"name = "Mario""#)
        .build();
    assert_eq!(
        "fields *; where id = 5 & value = 42 & name = \"Mario\";",
        query
    )
}

#[test]
fn single_or() {
    let query = Query::where_("id = 5").or("value = 42").build();
    assert_eq!("fields *; where id = 5 | value = 42;", query)
}

#[test]
fn multiple_ors() {
    let query = Query::where_("id = 5")
        .or("value = 42")
        .or(r#"name = "Mario""#)
        .build();
    assert_eq!(
        "fields *; where id = 5 | value = 42 | name = \"Mario\";",
        query
    )
}

#[test]
fn search() {
    let query = Query::search("Halo").build();
    assert_eq!("fields *; search \"Halo\";", query)
}

#[test]
fn only_limit() {
    let query = Query::limit(10).build();
    assert_eq!("fields *; limit 10;", query);
}

#[test]
fn only_offset() {
    let query = Query::offset(10).build();
    assert_eq!("fields *; offset 10;", query);
}

#[test]
fn sort_ascending() {
    let query = Query::sort("release_dates.date", SortDirection::Ascending).build();
    assert_eq!("fields *; sort release_dates.date asc;", query);
}

#[test]
fn sort_descending() {
    let query = Query::sort("release_dates.date", SortDirection::Descending).build();
    assert_eq!("fields *; sort release_dates.date desc;", query);
}

#[test]
fn complex_query_1() {
    // This is a nonsense query, but meant to test all the paths

    let query = Query::select("name")
        .select("rating")
        .search("God of War")
        .where_("platform = \"PS4\"")
        .and("developer = \"Insomniac\"")
        .or("developer = \"Naughty Dog\"")
        .select_multiple(&["publisher", "release_date.date"].map(String::from))
        .limit(100)
        .offset(5)
        .sort("rating", SortDirection::Ascending)
        .build();
    println!("{}", query)
}

#[test]
fn complex_query_2() {
    // This is a nonsense query, but meant to test all the paths

    let query = Query::search("God of War")
        .select("rating")
        .where_("platform = \"PS4\"")
        .and("developer = \"Insomniac\"")
        .or("developer = \"Naughty Dog\"")
        .limit(100)
        .offset(5)
        .sort("rating", SortDirection::Ascending)
        .build();
    println!("{}", query)
}

#[test]
fn complex_query_3() {
    // This is a nonsense query, but meant to test all the paths

    let query = Query::search("God of War")
        .select_multiple(&["rating", "release_date"].map(String::from))
        .where_("platform = \"PS4\"")
        .and("developer = \"Insomniac\"")
        .or("developer = \"Naughty Dog\"")
        .limit(100)
        .offset(5)
        .sort("rating", SortDirection::Ascending)
        .build();
    println!("{}", query)
}
