use security_context::identity::{
    format_account_name, join_account_name, sid_to_account_name, sid_to_string, Lookup,
    LookupEvent, LookupRequest, NONE_MAPPED,
};
use security_context::utf16::utf16_to_string;

fn wide(text: &str) -> Vec<u16> {
    text.encode_utf16().collect()
}

fn terminated(text: &str) -> Vec<u16> {
    let mut units = wide(text);
    units.push(0);
    units
}

#[test]
fn account_with_domain_is_qualified() {
    let domain = terminated("DOMAIN");
    let name = terminated("Alice");
    assert_eq!(format_account_name(&domain, &name), "DOMAIN\\Alice");
}

#[test]
fn account_without_domain_is_bare() {
    let domain = vec![0u16; 4];
    let name = terminated("Everyone");
    let text = format_account_name(&domain, &name);
    assert_eq!(text, "Everyone");
    assert!(!text.contains('\\'));
}

#[test]
fn empty_domain_buffer_gives_bare_account() {
    let name = terminated("SYSTEM");
    assert_eq!(format_account_name(&[], &name), "SYSTEM");
}

#[test]
fn empty_account_after_domain_keeps_backslash() {
    let domain = terminated("BUILTIN");
    assert_eq!(format_account_name(&domain, &[0]), "BUILTIN\\");
}

#[test]
fn buffers_are_cut_at_first_zero() {
    let mut domain = terminated("NT AUTHORITY");
    domain.extend(wide("stale"));
    let mut name = terminated("SYSTEM");
    name.extend([0, 0x41, 0]);
    assert_eq!(format_account_name(&domain, &name), "NT AUTHORITY\\SYSTEM");
}

#[test]
fn utf16_without_zero_is_decoded_whole() {
    assert_eq!(utf16_to_string(&wide("Users")), "Users");
}

#[test]
fn utf16_of_nothing_is_empty() {
    assert_eq!(utf16_to_string(&[]), "");
    assert_eq!(utf16_to_string(&[0, 0x41]), "");
}

#[test]
fn utf16_pairs_and_lone_surrogates() {
    // U+1D11E as a surrogate pair, then a lone high surrogate.
    let units = [0xD834, 0xDD1E, 0x006D, 0xD800, 0x0069, 0];
    assert_eq!(utf16_to_string(&units), "\u{1D11E}m\u{FFFD}i");
}

#[test]
fn utf16_beyond_ascii() {
    assert_eq!(utf16_to_string(&terminated("Administratör")), "Administratör");
    assert_eq!(utf16_to_string(&terminated("管理者")), "管理者");
}

#[test]
fn join_uses_one_backslash() {
    assert_eq!(join_account_name(String::from("D"), String::from("a")), "D\\a");
    assert_eq!(join_account_name(String::new(), String::from("a")), "a");
    assert_eq!(join_account_name(String::from("D"), String::new()), "D\\");
    assert_eq!(join_account_name(String::new(), String::new()), "");
}

#[test]
fn string_form_is_decoded() {
    assert_eq!(
        sid_to_string(Some(wide("S-1-5-21-1004336348-1177238915-682003330-512"))),
        Some(String::from("S-1-5-21-1004336348-1177238915-682003330-512"))
    );
}

#[test]
fn string_form_stops_at_zero() {
    assert_eq!(sid_to_string(Some(terminated("S-1-5-18"))), Some(String::from("S-1-5-18")));
}

#[test]
fn failed_conversion_gives_nothing() {
    assert_eq!(sid_to_string(None), None);
}

#[test]
fn null_identifier_resolves_to_nothing() {
    assert_eq!(
        sid_to_account_name(LookupEvent::Identifier { present: false }),
        Lookup::Resolved(None)
    );
}

#[test]
fn present_identifier_starts_with_size_query() {
    assert_eq!(
        sid_to_account_name(LookupEvent::Identifier { present: true }),
        Lookup::Ask(LookupRequest::Sizes)
    );
}

#[test]
fn zero_name_length_falls_back_to_string_form() {
    assert_eq!(
        sid_to_account_name(LookupEvent::Sizes { name_len: 0, domain_len: 0 }),
        Lookup::Ask(LookupRequest::StringForm)
    );
    assert_eq!(
        sid_to_account_name(LookupEvent::Sizes { name_len: 0, domain_len: 9 }),
        Lookup::Ask(LookupRequest::StringForm)
    );
}

#[test]
fn reported_sizes_give_zeroed_buffers() {
    assert_eq!(
        sid_to_account_name(LookupEvent::Sizes { name_len: 6, domain_len: 7 }),
        Lookup::Ask(LookupRequest::Names { name: vec![0u16; 6], domain: vec![0u16; 7] })
    );
    assert_eq!(
        sid_to_account_name(LookupEvent::Sizes { name_len: 1, domain_len: 0 }),
        Lookup::Ask(LookupRequest::Names { name: vec![0u16], domain: vec![] })
    );
}

#[test]
fn filled_buffers_resolve_to_account_name() {
    assert_eq!(
        sid_to_account_name(LookupEvent::Names {
            domain: terminated("DOMAIN"),
            name: terminated("Alice"),
        }),
        Lookup::Resolved(Some(String::from("DOMAIN\\Alice")))
    );
    assert_eq!(
        sid_to_account_name(LookupEvent::Names { domain: vec![0], name: terminated("Alice") }),
        Lookup::Resolved(Some(String::from("Alice")))
    );
}

#[test]
fn none_mapped_failure_falls_back_to_string_form() {
    assert_eq!(NONE_MAPPED, 1332);
    assert_eq!(NONE_MAPPED, windows_sys::Win32::Foundation::ERROR_NONE_MAPPED);
    assert_eq!(
        sid_to_account_name(LookupEvent::NamesFailed { error: 1332 }),
        Lookup::Ask(LookupRequest::StringForm)
    );
}

#[test]
fn other_failure_leaves_identifier_unresolved() {
    // ERROR_INSUFFICIENT_BUFFER, ERROR_ACCESS_DENIED, and no error at all.
    for error in [122u32, 5, 0, 1331, 1333, u32::MAX] {
        assert_eq!(
            sid_to_account_name(LookupEvent::NamesFailed { error }),
            Lookup::Resolved(None)
        );
    }
}

#[test]
fn string_form_event_settles_the_name() {
    assert_eq!(
        sid_to_account_name(LookupEvent::StringForm { units: Some(wide("S-1-5-32-544")) }),
        Lookup::Resolved(Some(String::from("S-1-5-32-544")))
    );
    assert_eq!(
        sid_to_account_name(LookupEvent::StringForm { units: None }),
        Lookup::Resolved(None)
    );
}

/// What a fake operating system holds about one identifier.
struct Known {
    sizes: (u32, u32),
    names: Result<(&'static str, &'static str), u32>,
    string_form: Option<&'static str>,
}

fn resolve(known: Option<&Known>) -> (Option<String>, Vec<&'static str>) {
    let mut asked = Vec::new();
    let mut lookup = sid_to_account_name(LookupEvent::Identifier { present: known.is_some() });
    loop {
        let request = match lookup {
            Lookup::Resolved(text) => return (text, asked),
            Lookup::Ask(request) => request,
        };
        let known = known.unwrap();
        let event = match request {
            LookupRequest::Sizes => {
                asked.push("sizes");
                LookupEvent::Sizes { name_len: known.sizes.0, domain_len: known.sizes.1 }
            }
            LookupRequest::Names { mut name, mut domain } => {
                asked.push("names");
                assert_eq!(name.len(), known.sizes.0 as usize);
                assert_eq!(domain.len(), known.sizes.1 as usize);
                match known.names {
                    Ok((domain_text, name_text)) => {
                        for (slot, unit) in name.iter_mut().zip(name_text.encode_utf16()) {
                            *slot = unit;
                        }
                        for (slot, unit) in domain.iter_mut().zip(domain_text.encode_utf16()) {
                            *slot = unit;
                        }
                        LookupEvent::Names { domain, name }
                    }
                    Err(error) => LookupEvent::NamesFailed { error },
                }
            }
            LookupRequest::StringForm => {
                asked.push("string form");
                LookupEvent::StringForm { units: known.string_form.map(wide) }
            }
        };
        lookup = sid_to_account_name(event);
    }
}

#[test]
fn lookup_of_named_identifier_in_domain() {
    let known = Known { sizes: (6, 7), names: Ok(("DOMAIN", "Alice")), string_form: Some("S-1-5-21-1-2-3-1001") };
    let (text, asked) = resolve(Some(&known));
    assert_eq!(text, Some(String::from("DOMAIN\\Alice")));
    assert_eq!(asked, ["sizes", "names"]);
}

#[test]
fn lookup_of_named_identifier_without_domain() {
    let known = Known { sizes: (9, 1), names: Ok(("", "Everyone")), string_form: Some("S-1-1-0") };
    let (text, asked) = resolve(Some(&known));
    assert_eq!(text, Some(String::from("Everyone")));
    assert_eq!(asked, ["sizes", "names"]);
}

#[test]
fn lookup_without_mapping_gives_string_form() {
    let known = Known { sizes: (0, 0), names: Err(1332), string_form: Some("S-1-5-21-1-2-3-1001") };
    let (text, asked) = resolve(Some(&known));
    assert_eq!(text, Some(String::from("S-1-5-21-1-2-3-1001")));
    assert!(text.unwrap().starts_with("S-"));
    assert_eq!(asked, ["sizes", "string form"]);
}

#[test]
fn lookup_that_loses_mapping_gives_string_form() {
    let known = Known { sizes: (6, 7), names: Err(1332), string_form: Some("S-1-5-21-1-2-3-1001") };
    let (text, asked) = resolve(Some(&known));
    assert_eq!(text, Some(String::from("S-1-5-21-1-2-3-1001")));
    assert_eq!(asked, ["sizes", "names", "string form"]);
}

#[test]
fn lookup_that_fails_otherwise_gives_nothing() {
    let known = Known { sizes: (6, 7), names: Err(122), string_form: Some("S-1-5-21-1-2-3-1001") };
    let (text, asked) = resolve(Some(&known));
    assert_eq!(text, None);
    assert_eq!(asked, ["sizes", "names"]);
}

#[test]
fn lookup_without_mapping_and_without_string_form_gives_nothing() {
    let known = Known { sizes: (0, 0), names: Err(1332), string_form: None };
    let (text, asked) = resolve(Some(&known));
    assert_eq!(text, None);
    assert_eq!(asked, ["sizes", "string form"]);
}

#[test]
fn lookup_of_null_identifier_asks_nothing() {
    let (text, asked) = resolve(None);
    assert_eq!(text, None);
    assert!(asked.is_empty());
}
