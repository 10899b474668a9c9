use inquire::utils::paginate;

#[test]
fn page_aligned_window_in_long_list() {
    let items: Vec<usize> = (0..10).collect();
    let (page, rel) = paginate(3, &items, 7);
    assert_eq!(page, &[6, 7, 8]);
    assert_eq!(rel, 1);
}

#[test]
fn short_list_is_shown_whole() {
    let items = vec!["a", "b", "c"];
    let (page, rel) = paginate(5, &items, 1);
    assert_eq!(page, &["a", "b", "c"]);
    assert_eq!(rel, 1);
}

#[test]
fn last_page_may_be_short() {
    let items: Vec<usize> = (0..10).collect();
    let (page, rel) = paginate(3, &items, 9);
    assert_eq!(page, &[9]);
    assert_eq!(rel, 0);
}

#[test]
fn first_page_starts_at_zero() {
    let items: Vec<usize> = (0..10).collect();
    let (page, rel) = paginate(4, &items, 3);
    assert_eq!(page, &[0, 1, 2, 3]);
    assert_eq!(rel, 3);
}

#[test]
fn list_as_long_as_the_page_is_whole() {
    let items: Vec<usize> = (0..4).collect();
    let (page, rel) = paginate(4, &items, 2);
    assert_eq!(page, &[0, 1, 2, 3]);
    assert_eq!(rel, 2);
}

#[test]
fn empty_list_gives_empty_window() {
    let items: Vec<usize> = Vec::new();
    let (page, rel) = paginate(3, &items, 0);
    assert!(page.is_empty());
    assert_eq!(rel, 0);
    let (page, rel) = paginate(0, &items, 0);
    assert!(page.is_empty());
    assert_eq!(rel, 0);
}

#[test]
fn zero_page_size_shows_nothing() {
    let items: Vec<usize> = (0..4).collect();
    let (page, rel) = paginate(0, &items, 2);
    assert!(page.is_empty());
    assert_eq!(rel, 2);
}

#[test]
fn selection_beyond_the_list_gives_empty_window() {
    let items: Vec<usize> = (0..10).collect();
    let (page, rel) = paginate(3, &items, 13);
    assert!(page.is_empty());
    assert_eq!(rel, 1);
}

#[test]
fn window_holds_the_selected_item() {
    let items: Vec<usize> = (0..23).collect();
    for page_size in 1..8 {
        for sel in 0..23 {
            let (page, rel) = paginate(page_size, &items, sel);
            assert_eq!(page[rel], sel);
            assert_eq!(page[0] % page_size, 0);
            assert!(page.len() <= page_size);
        }
    }
}
