use signal_orchestrate::bootstrap_manifest::{
    authority_seats, boolean_seat, declaration_seats, input_seat, integer_seat, interface_seat,
    map_seat, nexus_seat, option_seat, output_seat, refusal_seat, result_seat, sema_seat,
    stream_identity_seat, stream_seat, string_seat, unit_seat, vector_seat, AuthoritySeat,
    DeclarationSeat, AUTHORITY_IDENTITY, AUTHORITY_REVISION,
};

#[test]
fn seats_hold_what_they_were_minted_with() {
    let seat = AuthoritySeat::new("Interface", 2339, 0x69de7fd166248bf9);
    assert_eq!(seat.spelling, "Interface");
    assert_eq!(seat.local, 2339);
    assert_eq!(seat.canonical, 0x69de7fd166248bf9);
    let variant = DeclarationSeat::new(Some(35255), "Support", 19874, 0x02aceb280b52b392);
    assert_eq!(variant.owner_local, Some(35255));
    assert_eq!(variant.spelling, "Support");
}

#[test]
fn authority_seat_table_lists_the_vocabulary() {
    let seats = authority_seats();
    assert_eq!(seats.len(), 16);
    assert_eq!(seats[0], AuthoritySeat::new("Interface", 2339, 0x69de7fd166248bf9));
    assert_eq!(
        seats[15],
        AuthoritySeat::new("StreamIdentity", 49810, 0x6de2d2bfea0bd258)
    );
    assert_eq!(AUTHORITY_REVISION, 1);
    assert_eq!(AUTHORITY_IDENTITY[0], 68);
}

#[test]
fn declaration_seats_have_distinct_locals_and_owners_listed_first() {
    let seats = declaration_seats();
    assert_eq!(seats.len(), 51);
    for (i, a) in seats.iter().enumerate() {
        for b in &seats[i + 1..] {
            assert_ne!(a.local, b.local);
            assert_ne!(a.canonical, b.canonical);
        }
        if let Some(owner) = a.owner_local {
            assert!(seats[..i].iter().any(|s| s.local == owner && s.owner_local.is_none()));
        }
    }
}

#[test]
fn each_named_seat_is_its_entry_of_the_table() {
    let named = [
        interface_seat(),
        nexus_seat(),
        sema_seat(),
        input_seat(),
        output_seat(),
        refusal_seat(),
        string_seat(),
        integer_seat(),
        boolean_seat(),
        unit_seat(),
        vector_seat(),
        option_seat(),
        map_seat(),
        result_seat(),
        stream_seat(),
        stream_identity_seat(),
    ];
    assert_eq!(named.to_vec(), authority_seats());
    assert_eq!(sema_seat(), AuthoritySeat::new("Sema", 29501, 0xe2a4350c99ae55dd));
    assert_eq!(map_seat().local, 27798);
}
