use tinydb::record::{to_fixlen_array, Schema, Table};

fn text(field: &[char; 32]) -> String {
    field.iter().take_while(|c| **c != '\0').collect()
}

#[test]
fn fixlen_pads_short_text_with_nul() {
    let a = to_fixlen_array("bob");
    assert_eq!(a[0], 'b');
    assert_eq!(a[1], 'o');
    assert_eq!(a[2], 'b');
    assert!(a[3..].iter().all(|c| *c == '\0'));
}

#[test]
fn fixlen_of_empty_text_is_all_nul() {
    assert_eq!(to_fixlen_array(""), ['\0'; 32]);
}

#[test]
fn fixlen_keeps_exactly_full_text() {
    let s = "abcdefghijklmnopqrstuvwxyz012345";
    assert_eq!(s.chars().count(), 32);
    let a = to_fixlen_array(s);
    assert_eq!(a.iter().collect::<String>(), s);
}

#[test]
fn fixlen_drops_what_does_not_fit() {
    let s = "abcdefghijklmnopqrstuvwxyz0123456789";
    let a = to_fixlen_array(s);
    assert_eq!(a.iter().collect::<String>(), "abcdefghijklmnopqrstuvwxyz012345");
}

#[test]
fn fixlen_counts_characters_not_bytes() {
    let a = to_fixlen_array("élan");
    assert_eq!(text(&a), "élan");
    assert_eq!(a[4], '\0');
}

#[test]
fn table_scan_of_empty_table_is_empty() {
    let t = Table::new();
    assert!(t.scan().is_empty());
}

#[test]
fn table_append_keeps_order_and_duplicates() {
    let mut t = Table::new();
    let r1 = Schema { id: 5, username: to_fixlen_array("a"), email: to_fixlen_array("a@b.c") };
    let r2 = Schema { id: 5, username: to_fixlen_array("b"), email: to_fixlen_array("b@b.c") };
    t.append(r1);
    t.append(r2);
    t.append(r1);
    let rows = t.scan();
    assert_eq!(rows.len(), 3);
    assert_eq!(rows[0], r1);
    assert_eq!(rows[1], r2);
    assert_eq!(rows[2], r1);
    assert_eq!(t.scan(), rows);
}
