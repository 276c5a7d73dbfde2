//! Maps kept in the order of their keys.

use abap_lsp::text::{ascii_lowercase, decimal_text};
use abap_lsp::text_map::TextMap;
use std::collections::BTreeMap;

#[test]
fn text_maps_behave_as_ordered_maps() {
    let keys = ["b", "", "ä", "a", "ab", "B", "😀", "\u{ffff}", "b", "a\u{0}", "ab", "\u{e000}"];
    let mut map = TextMap::new();
    let mut model = BTreeMap::new();
    for (value, key) in keys.into_iter().enumerate() {
        map.insert(key.to_owned(), value);
        model.insert(key.to_owned(), value);
        for key in keys {
            assert_eq!(map.get(key), model.get(key));
        }
    }
    for key in ["ab", "missing", "", "ab"] {
        assert_eq!(map.remove(key), model.remove(key));
    }
    let entries: Vec<_> =
        map.into_entries().into_iter().map(|entry| (entry.key, entry.value)).collect();
    assert_eq!(entries, model.into_iter().collect::<Vec<_>>());
}

#[test]
fn numbers_are_written_in_decimal() {
    for number in [0, 7, 10, 99, 100, 1234567890, u32::MAX] {
        assert_eq!(decimal_text(number), number.to_string());
    }
}

#[test]
fn only_ascii_letters_are_lowered() {
    for text in ["", "ABCxyzZ", "<MEMBER>", "/DMO/CL_Ä", "@[`{"] {
        assert_eq!(ascii_lowercase(text), text.to_ascii_lowercase());
    }
}
