use api_view::sql_format::{compress_sql, format_sql};
use api_view::text::is_whitespace;

#[test]
fn test_format_sql() {
    let sql = "select id, name from users where id = 1";
    let formatted = format_sql(sql, false);
    let formatted_upper = formatted.to_uppercase();
    assert!(formatted_upper.contains("SELECT"));
    assert!(formatted_upper.contains("FROM"));
    assert!(formatted_upper.contains("WHERE"));
}

#[test]
fn test_format_sql_uppercase() {
    let sql = "select id, name from users where id = 1";
    let formatted = format_sql(sql, true);
    assert!(formatted.contains("SELECT"));
    assert!(formatted.contains("FROM"));
    assert!(formatted.contains("WHERE"));
}

#[test]
fn test_compress_sql() {
    let sql = "SELECT\n  id,\n  name\nFROM\n  users\nWHERE\n  id = 1";
    let compressed = compress_sql(sql);
    assert_eq!(compressed, "SELECT id, name FROM users WHERE id = 1");
}

#[test]
fn format_sql_keeps_keyword_case_without_uppercase() {
    let formatted = format_sql("select id from users", false);
    assert!(formatted.contains("select"));
    assert!(formatted.contains('\n'));
}

#[test]
fn compress_sql_edge_cases() {
    assert_eq!(compress_sql(""), "");
    assert_eq!(compress_sql("   \n\t "), "");
    assert_eq!(compress_sql("  a  "), "a");
    assert_eq!(compress_sql("a\u{3000}b\u{85}c"), "a b c");
    assert_eq!(compress_sql("x\r\ny"), "x y");
}

#[test]
fn compress_sql_is_idempotent_and_one_line() {
    let sql = "SELECT *\n\tFROM  t\r\n WHERE a =\u{2003}1 ";
    let once = compress_sql(sql);
    assert_eq!(once, "SELECT * FROM t WHERE a = 1");
    assert_eq!(compress_sql(&once), once);
    assert!(!once.contains('\n'));
    assert!(!once.contains("  "));
}

#[test]
fn whitespace_matches_std_for_every_char() {
    for u in 0u32..=0x10FFFF {
        if let Some(c) = char::from_u32(u) {
            assert_eq!(is_whitespace(c), c.is_whitespace(), "char {:x}", u);
        }
    }
}
