//! Resource addresses.

use abap_lsp::config::DestinationId;
use abap_lsp::uri::{decode_component, is_control_char, ResourcePath, ResourceUri, UriError};

fn vfs(system: &str, segments: &[&str]) -> ResourceUri {
    ResourceUri {
        system: DestinationId::from(system.to_owned()),
        path: ResourcePath::Vfs(segments.iter().map(|segment| segment.to_string()).collect()),
    }
}

fn document(system: &str, name: &str) -> ResourceUri {
    ResourceUri {
        system: DestinationId::from(system.to_owned()),
        path: ResourcePath::Document(name.to_owned()),
    }
}

#[test]
fn addresses_preserve_destination_case_and_encoded_segment_boundaries() {
    let uri: ResourceUri =
        "abap://DeV%20%40%3A%2F/vfs/Flight%20%26%20More/%2FDMO%2FFLIGHT/%252F/%2E%2E/"
            .parse()
            .unwrap();
    assert_eq!(uri.system.as_str(), "DeV @:/");
    assert_eq!(
        uri.path,
        ResourcePath::Vfs(vec![
            "Flight & More".into(),
            "/DMO/FLIGHT".into(),
            "%2F".into(),
            "..".into()
        ])
    );
    assert_eq!(uri.to_string().parse::<ResourceUri>().unwrap(), uri);
    assert_ne!(
        "abap://DEV/vfs/".parse::<ResourceUri>().unwrap().system,
        "abap://dev/vfs/".parse::<ResourceUri>().unwrap().system
    );
    let file: ResourceUri = "abap://DEV/%23dmo%23cl_flight.clas.abap".parse().unwrap();
    assert_eq!(
        file.path,
        ResourcePath::Document("#dmo#cl_flight.clas.abap".into())
    );
    assert_eq!(file.to_string(), "abap://DEV/%23dmo%23cl_flight.clas.abap");
}

#[test]
fn malformed_or_ambiguous_addresses_are_rejected() {
    for uri in [
        "file:///tmp/file",
        "abap:/DEV/vfs/",
        "abap:///vfs/",
        "abap://DEV/",
        "abap://DEV@project/vfs/",
        "abap://DEV:42/vfs/",
        "abap://DEV/vfs//Classes/",
        "abap://DEV/vfs/%",
        "abap://DEV/vfs/%FF",
        "abap://DEV/vfs/%00",
        "abap://DEV/vfs/Classes?x=1",
        "abap://DEV/file.abap#fragment",
        "abap://DEV/dir/file.abap",
    ] {
        assert!(uri.parse::<ResourceUri>().is_err(), "{uri}");
    }
}

#[test]
fn a_package_label_is_one_segment() {
    let uri: ResourceUri = "abap://DEV/vfs/%2FDMO%2FFLIGHT/".parse().unwrap();
    assert_eq!(uri.system.as_str(), "DEV");
    assert_eq!(uri.path, ResourcePath::Vfs(vec!["/DMO/FLIGHT".into()]));
}

#[test]
fn each_error_has_inputs_that_give_it() {
    for uri in [
        "",
        "abap://",
        "abap://DEV",
        "ABAP://DEV/vfs/",
        "abap:///file",
        "abap://DEV/",
        "abap://DEV//",
        "abap://DEV/file.abap/",
        "abap://DEV/a/b",
    ] {
        assert_eq!(ResourceUri::from_str(uri), Err(UriError::InvalidAddress), "{uri}");
    }
    for uri in [
        "abap://D V/vfs/",
        "abap://DEV/vfs/%",
        "abap://DEV/vfs/%4",
        "abap://DEV/vfs/%4G",
        "abap://DEV/vfs/%FF",
        "abap://DEV/vfs/%0A",
        "abap://DEV/vfs/%7F",
        "abap://DEV/vfs/%C2%85",
        "abap://DEV/vfs/ä",
        "abap://DEV/a:b",
    ] {
        assert_eq!(ResourceUri::from_str(uri), Err(UriError::InvalidEncoding), "{uri}");
    }
    assert_eq!(
        UriError::InvalidAddress.to_string(),
        "Expected abap://DESTINATION/vfs/path/ or abap://DESTINATION/filename"
    );
    assert_eq!(
        UriError::InvalidEncoding.to_string(),
        "Invalid URI component. Reserved characters must be percent encoded"
    );
}

#[test]
fn the_first_bad_part_decides_the_error() {
    // The authority comes before the path, and earlier segments before later ones.
    assert_eq!(ResourceUri::from_str("abap://%/vfs//"), Err(UriError::InvalidEncoding));
    assert_eq!(ResourceUri::from_str("abap://DEV/vfs//%"), Err(UriError::InvalidAddress));
    assert_eq!(ResourceUri::from_str("abap://DEV/vfs/%//"), Err(UriError::InvalidEncoding));
    assert_eq!(ResourceUri::from_str("abap://DEV/a/%"), Err(UriError::InvalidEncoding));
}

#[test]
fn directories_may_omit_the_final_slash() {
    for uri in ["abap://DEV/vfs", "abap://DEV/vfs/"] {
        assert_eq!(ResourceUri::from_str(uri), Ok(vfs("DEV", &[])));
    }
    for uri in ["abap://DEV/vfs/a/b", "abap://DEV/vfs/a/b/"] {
        assert_eq!(ResourceUri::from_str(uri), Ok(vfs("DEV", &["a", "b"])));
    }
    assert_eq!(vfs("DEV", &[]).to_string(), "abap://DEV/vfs/");
    assert_eq!(vfs("DEV", &["a", "b"]).to_string(), "abap://DEV/vfs/a/b/");
    assert_eq!(ResourceUri::from_str("abap://DEV/a"), Ok(document("DEV", "a")));
    assert_eq!(ResourceUri::from_str("abap://DEV/a/"), Err(UriError::InvalidAddress));
}

#[test]
fn components_are_spelled_exactly() {
    assert_eq!(
        vfs("A-b.c_d~e", &["a b", "100%", "x/y", "ä€😀", "(ns)"]).to_string(),
        "abap://A-b.c_d~e/vfs/a%20b/100%25/x%2Fy/%C3%A4%E2%82%AC%F0%9F%98%80/%28ns%29/"
    );
    assert_eq!(
        document("DEV", "zcl_example.clas.abap").to_string(),
        "abap://DEV/zcl_example.clas.abap"
    );
}

#[test]
fn segments_that_would_navigate_are_escaped() {
    assert_eq!(
        vfs("DEV", &[".", "..", "...", ".a"]).to_string(),
        "abap://DEV/vfs/%2E/%2E%2E/.../.a/"
    );
    // Neither destinations nor documents are segments of a path.
    assert_eq!(vfs("..", &[]).to_string(), "abap://../vfs/");
    assert_eq!(document("DEV", "..").to_string(), "abap://DEV/..");
}

#[test]
fn spelled_addresses_are_read_back() {
    for uri in [
        vfs("DEV", &[]),
        vfs("DeV @:/", &["Flight & More", "/DMO/FLIGHT", "%2F", "..", "."]),
        vfs("ä", &["vfs", "€", "😀", "a+b=c;d,e!$'()*"]),
        document("DEV", "#dmo#cl_flight.clas.abap"),
        document("DEV", "vfs2"),
        document("%", "."),
    ] {
        assert_eq!(ResourceUri::from_str(&uri.to_string()), Ok(uri.clone()));
    }
    // A document of this name is read as the root directory.
    assert_eq!(
        ResourceUri::from_str(&document("DEV", "vfs").to_string()),
        Ok(vfs("DEV", &[]))
    );
}

#[test]
fn reading_accepts_more_spellings_than_are_written() {
    let uri = ResourceUri::from_str("abap://%44EV/vfs/a+b%2b%2B!").unwrap();
    assert_eq!(uri, vfs("DEV", &["a+b++!"]));
    assert_eq!(uri.to_string(), "abap://DEV/vfs/a%2Bb%2B%2B%21/");
    assert_eq!(ResourceUri::from_str("abap://DEV/%76fs/x"), Ok(vfs("DEV", &["x"])));
}

#[test]
fn components_are_decoded_once() {
    assert_eq!(decode_component("a%2520b"), Ok("a%20b".to_owned()));
    assert_eq!(decode_component(""), Err(UriError::InvalidAddress));
    assert_eq!(decode_component("%e2%82%ac"), Ok("€".to_owned()));
    assert_eq!(decode_component("%e2%82"), Err(UriError::InvalidEncoding));
    assert_eq!(decode_component("a b"), Err(UriError::InvalidEncoding));
}

#[test]
fn control_characters_are_those_of_unicode() {
    for code in 0..=0x10ffffu32 {
        if let Some(c) = char::from_u32(code) {
            assert_eq!(is_control_char(c), c.is_control());
        }
    }
}

#[test]
fn every_character_survives_an_address() {
    let mut code = 0x20u32;
    while code <= 0x10ffff {
        if let Some(c) = char::from_u32(code) {
            if !c.is_control() {
                let uri = vfs("D", &[&c.to_string()]);
                assert_eq!(ResourceUri::from_str(&uri.to_string()), Ok(uri.clone()));
            }
        }
        code += if code < 0x3000 { 1 } else { 0x3f1 };
    }
}

#[test]
fn different_addresses_are_spelled_differently() {
    let all = [
        vfs("DEV", &[]),
        vfs("dev", &[]),
        vfs("DEV", &["a", "b"]),
        vfs("DEV", &["a/b"]),
        vfs("DEV", &["a%2Fb"]),
        vfs("DEV", &["."]),
        vfs("DEV", &["%2E"]),
        document("DEV", "a"),
        document("DEV", "a/b"),
        // Not every address can be read back, but none shares its spelling.
        document("DEV", "vfs"),
        document("DEV", ""),
        vfs("DEV", &[""]),
        vfs("DEV", &["", ""]),
        vfs("", &[]),
        vfs("DEV", &["\u{7}"]),
    ];
    for (i, left) in all.iter().enumerate() {
        for (j, right) in all.iter().enumerate() {
            assert_eq!(left.to_string() == right.to_string(), i == j);
        }
    }
}
