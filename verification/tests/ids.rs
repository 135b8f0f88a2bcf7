use eventstore::ids::EventId;

const BYTES: [u8; 16] = [
    0x93, 0x6d, 0xa0, 0x1f, 0x9a, 0xbd, 0x4d, 0x9d, 0x80, 0xc7, 0x02, 0xaf, 0x85, 0xc8, 0x22, 0xa8,
];
const TEXT: &str = "936da01f-9abd-4d9d-80c7-02af85c822a8";

#[test]
fn id_text_is_hyphenated_lower_case() {
    assert_eq!(EventId { bytes: BYTES }.to_text(), TEXT);
    assert_eq!(
        EventId { bytes: [0; 16] }.to_text(),
        "00000000-0000-0000-0000-000000000000"
    );
    assert_eq!(
        EventId { bytes: [0xff; 16] }.to_text(),
        "ffffffff-ffff-ffff-ffff-ffffffffffff"
    );
}

#[test]
fn id_is_read_in_all_four_forms() {
    let id = Some(EventId { bytes: BYTES });
    assert_eq!(EventId::parse(TEXT), id);
    assert_eq!(EventId::parse("936da01f9abd4d9d80c702af85c822a8"), id);
    assert_eq!(EventId::parse("{936da01f-9abd-4d9d-80c7-02af85c822a8}"), id);
    assert_eq!(EventId::parse("urn:uuid:936da01f-9abd-4d9d-80c7-02af85c822a8"), id);
}

#[test]
fn id_is_read_in_either_case() {
    let id = Some(EventId { bytes: BYTES });
    assert_eq!(EventId::parse("936DA01F-9abd-4D9D-80c7-02AF85C822A8"), id);
    assert_eq!(EventId::parse("936DA01F9ABD4D9D80C702AF85C822A8"), id);
    assert_eq!(EventId::parse("URN:Uuid:936da01f-9abd-4d9d-80c7-02af85c822a8"), id);
}

#[test]
fn other_texts_denote_no_id() {
    let refused = [
        "",
        "not-a-uuid",
        "936da01f9abd4d9d80c702af85c822a",
        "936da01f9abd4d9d80c702af85c822a88",
        "936da01f-9abd-4d9d-80c7-02af85c822ag",
        "936da01f9-abd-4d9d-80c7-02af85c822a8",
        "936da01f-9abd-4d9d-80c7--2af85c822a8",
        "{936da01f9abd4d9d80c702af85c822a8}",
        "{936da01f-9abd-4d9d-80c7-02af85c822a8)",
        "urn:uuid:936da01f9abd4d9d80c702af85c822a8",
        "urn-uuid:936da01f-9abd-4d9d-80c7-02af85c822a8",
        " 936da01f-9abd-4d9d-80c7-02af85c822a8",
        "936da01f-9abd-4d9d-80c7-02af85c8\u{e9}a8",
        "\u{e9}36da01f9abd4d9d80c702af85c822a8",
    ];
    for text in refused {
        assert_eq!(EventId::parse(text), None, "{}", text);
    }
}

#[test]
fn written_id_reads_back() {
    let mut bytes = [0u8; 16];
    for i in 0..256usize {
        for (k, byte) in bytes.iter_mut().enumerate() {
            *byte = (i + 37 * k) as u8;
        }
        let id = EventId { bytes };
        assert_eq!(EventId::parse(&id.to_text()), Some(id));
    }
}

#[test]
fn random_ids_are_marked_and_differ() {
    let a = EventId::new_random();
    let b = EventId::new_random();
    for id in [a, b] {
        assert_eq!(id.bytes[6] >> 4, 4);
        assert_eq!(id.bytes[8] >> 6, 2);
    }
    assert_ne!(a, b);
}
