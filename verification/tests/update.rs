use rbgp::messages::route::octets_for;
use rbgp::messages::ErrorKind;
use rbgp::messages::PathAttributes;
use rbgp::messages::Route;
use rbgp::messages::Update;

fn route(length: u8, prefix: &[u8]) -> Route {
    Route { length, prefix: prefix.to_vec() }
}

fn attribute(flags: u8, type_code: u8, value: &[u8]) -> PathAttributes {
    PathAttributes { flags, type_code, value: value.to_vec() }
}

fn sample_body() -> Vec<u8> {
    vec![
        0x00, 0x04, // withdrawn routes: four octets
        0x18, 0x0A, 0x01, 0x02, // 10.1.2.0/24
        0x00, 0x0A, // path attributes: ten octets
        0x40, 0x01, 0x01, 0x00, // one-octet length
        0x50, 0x02, 0x00, 0x02, 0xAA, 0xBB, // two-octet length
        0x08, 0x0A, // 10.0.0.0/8
        0x00, // 0.0.0.0/0
    ]
}

fn sample_update() -> Update {
    Update {
        withdrawn_routes: vec![route(24, &[10, 1, 2])],
        path_attributes: vec![attribute(0x40, 1, &[0]), attribute(0x50, 2, &[0xAA, 0xBB])],
        nlri: vec![route(8, &[10]), route(0, &[])],
    }
}

#[test]
fn update_test_from_bytes() {
    // The first two octets are the length of the withdrawn routes in octets,
    // 0x04FB, and the body does not hold that many.
    let input = b"\x04\xFB\xFF\x01\x00\x00\x00\x00\x16\x00\x00";
    let update = Update::from_bytes(input);

    assert_eq!(update.unwrap_err().kind, ErrorKind::TruncatedRouteList);
}

#[test]
fn route_octets_for_each_length() {
    assert_eq!(octets_for(0), 0);
    assert_eq!(octets_for(1), 1);
    assert_eq!(octets_for(8), 1);
    assert_eq!(octets_for(9), 2);
    assert_eq!(octets_for(16), 2);
    assert_eq!(octets_for(17), 3);
    assert_eq!(octets_for(24), 3);
    assert_eq!(octets_for(25), 4);
    assert_eq!(octets_for(32), 4);
    assert_eq!(octets_for(255), 32);
}

#[test]
fn route_decodes_lengths_from_0_to_32() {
    assert_eq!(Route::from_bytes(&[0]).unwrap(), route(0, &[]));
    assert_eq!(Route::from_bytes(&[1, 0x80]).unwrap(), route(1, &[0x80]));
    assert_eq!(Route::from_bytes(&[8, 10]).unwrap(), route(8, &[10]));
    assert_eq!(Route::from_bytes(&[9, 10, 0x80]).unwrap(), route(9, &[10, 0x80]));
    assert_eq!(Route::from_bytes(&[24, 192, 168, 1]).unwrap(), route(24, &[192, 168, 1]));
    assert_eq!(Route::from_bytes(&[32, 1, 2, 3, 4]).unwrap(), route(32, &[1, 2, 3, 4]));
}

#[test]
fn route_decode_reads_no_octet_beyond_the_prefix() {
    assert_eq!(Route::from_bytes(&[8, 10, 99, 98]).unwrap(), route(8, &[10]));
    assert_eq!(Route::from_bytes(&[0, 99]).unwrap(), route(0, &[]));
}

#[test]
fn route_longer_than_32_bits_is_invalid() {
    assert_eq!(
        Route::from_bytes(&[33, 1, 2, 3, 4, 5]).unwrap_err().kind,
        ErrorKind::InvalidPrefixLength
    );
    assert_eq!(Route::from_bytes(&[255]).unwrap_err().kind, ErrorKind::InvalidPrefixLength);
}

#[test]
fn route_cut_short_is_truncated() {
    assert_eq!(Route::from_bytes(&[]).unwrap_err().kind, ErrorKind::TruncatedRouteList);
    assert_eq!(Route::from_bytes(&[8]).unwrap_err().kind, ErrorKind::TruncatedRouteList);
    assert_eq!(Route::from_bytes(&[32, 1, 2, 3]).unwrap_err().kind, ErrorKind::TruncatedRouteList);
}

#[test]
fn route_write_bytes_exact_octets() {
    let mut out = vec![0xEEu8];
    route(24, &[192, 168, 1]).write_bytes(&mut out).unwrap();
    assert_eq!(out, vec![0xEE, 24, 192, 168, 1]);
    route(0, &[]).write_bytes(&mut out).unwrap();
    assert_eq!(out, vec![0xEE, 24, 192, 168, 1, 0]);
}

#[test]
fn route_write_refuses_what_is_not_well_formed() {
    let mut out = vec![5u8];
    assert_eq!(
        route(33, &[1, 2, 3, 4, 5]).write_bytes(&mut out).unwrap_err().kind,
        ErrorKind::InvalidPrefixLength
    );
    assert_eq!(
        route(24, &[1, 2]).write_bytes(&mut out).unwrap_err().kind,
        ErrorKind::InvalidPrefixLength
    );
    assert_eq!(
        route(8, &[1, 2]).write_bytes(&mut out).unwrap_err().kind,
        ErrorKind::InvalidPrefixLength
    );
    assert_eq!(out, vec![5u8]);
    assert!(!route(33, &[1, 2, 3, 4, 5]).is_wf());
    assert!(!route(24, &[1, 2]).is_wf());
    assert!(route(24, &[1, 2, 3]).is_wf());
    assert!(route(0, &[]).is_wf());
}

#[test]
fn route_round_trip() {
    for r in [route(0, &[]), route(7, &[0xFE]), route(16, &[172, 16]), route(32, &[8, 8, 8, 8])] {
        let mut out = Vec::new();
        r.write_bytes(&mut out).unwrap();
        assert_eq!(out.len(), 1 + r.prefix.len());
        assert_eq!(Route::from_bytes(&out).unwrap(), r);
    }
}

#[test]
fn attribute_decodes_both_length_forms() {
    assert_eq!(
        PathAttributes::from_bytes(&[0x40, 1, 1, 0]).unwrap(),
        attribute(0x40, 1, &[0])
    );
    assert_eq!(
        PathAttributes::from_bytes(&[0x50, 2, 0, 2, 0xAA, 0xBB]).unwrap(),
        attribute(0x50, 2, &[0xAA, 0xBB])
    );
    assert_eq!(PathAttributes::from_bytes(&[0x80, 9, 0]).unwrap(), attribute(0x80, 9, &[]));
    assert_eq!(PathAttributes::from_bytes(&[0x10, 9, 0, 0]).unwrap(), attribute(0x10, 9, &[]));
    // octets behind the record are not looked at
    assert_eq!(
        PathAttributes::from_bytes(&[0x40, 1, 1, 7, 8, 9]).unwrap(),
        attribute(0x40, 1, &[7])
    );
}

#[test]
fn attribute_cut_short_is_incomplete_read() {
    for input in [
        &[][..],
        &[0x40][..],
        &[0x40, 1][..],
        &[0x40, 1, 1][..],
        &[0x40, 1, 3, 0, 0][..],
        &[0x50, 2, 0][..],
        &[0x50, 2, 0, 2, 0xAA][..],
        &[0x50, 2, 1, 0, 0xAA][..],
    ] {
        assert_eq!(PathAttributes::from_bytes(input).unwrap_err().kind, ErrorKind::IncompleteRead);
    }
}

#[test]
fn attribute_write_bytes_exact_octets() {
    let mut out = Vec::new();
    attribute(0x40, 1, &[0]).write_bytes(&mut out).unwrap();
    assert_eq!(out, vec![0x40, 1, 1, 0]);
    attribute(0x50, 2, &[0xAA, 0xBB]).write_bytes(&mut out).unwrap();
    assert_eq!(out, vec![0x40, 1, 1, 0, 0x50, 2, 0, 2, 0xAA, 0xBB]);
    let long = vec![7u8; 300];
    let mut out = Vec::new();
    attribute(0x90, 14, &long).write_bytes(&mut out).unwrap();
    assert_eq!(&out[..4], &[0x90, 14, 0x01, 0x2C]);
    assert_eq!(out.len(), 304);
}

#[test]
fn attribute_write_refuses_a_value_too_long_for_its_length_field() {
    let mut out = vec![1u8];
    let long = vec![7u8; 256];
    assert_eq!(
        attribute(0x40, 1, &long).write_bytes(&mut out).unwrap_err().kind,
        ErrorKind::FrameTooLong
    );
    assert_eq!(out, vec![1u8]);
    assert!(!attribute(0x40, 1, &long).is_wf());
    assert!(attribute(0x50, 1, &long).is_wf());
    let longer = vec![7u8; 65536];
    assert!(!attribute(0x50, 1, &longer).is_wf());
    assert!(attribute(0x40, 1, &long[..255]).is_wf());
}

#[test]
fn update_default_is_empty() {
    let u = Update::default();
    assert!(u.withdrawn_routes.is_empty());
    assert!(u.path_attributes.is_empty());
    assert!(u.nlri.is_empty());
    let mut out = Vec::new();
    u.write_body(&mut out).unwrap();
    assert_eq!(out, vec![0, 0, 0, 0]);
    assert_eq!(Update::from_bytes(&out).unwrap(), u);
}

#[test]
fn update_decodes_all_three_parts() {
    let update = Update::from_bytes(&sample_body()).unwrap();
    assert_eq!(update, sample_update());
    assert_eq!(update.withdrawn_routes.len(), 1);
    assert_eq!(update.path_attributes.len(), 2);
    assert_eq!(update.nlri.len(), 2);
}

#[test]
fn update_withdrawn_routes_are_bounded_by_octets_not_by_count() {
    // Seven octets of withdrawn routes hold three tuples of different sizes.
    let body = [0x00, 0x07, 0x00, 0x08, 0x0A, 0x18, 0xC0, 0xA8, 0x01, 0x00, 0x00];
    let update = Update::from_bytes(&body).unwrap();
    assert_eq!(
        update.withdrawn_routes,
        vec![route(0, &[]), route(8, &[10]), route(24, &[192, 168, 1])]
    );
    let consumed: usize = update.withdrawn_routes.iter().map(|r| 1 + r.prefix.len()).sum();
    assert_eq!(consumed, 7);
    assert!(update.path_attributes.is_empty());
    assert!(update.nlri.is_empty());
}

#[test]
fn update_withdrawn_route_across_the_boundary_is_truncated() {
    // The length sets three octets apart; the tuple in them needs four.
    let body = [0x00, 0x03, 0x18, 0x0A, 0x01, 0x02, 0x00, 0x00];
    assert_eq!(Update::from_bytes(&body).unwrap_err().kind, ErrorKind::TruncatedRouteList);
    // A whole tuple first, then one that is cut.
    let body = [0x00, 0x03, 0x08, 0x0A, 0x08, 0x00, 0x00];
    assert_eq!(Update::from_bytes(&body).unwrap_err().kind, ErrorKind::TruncatedRouteList);
}

#[test]
fn update_withdrawn_length_beyond_the_body_is_truncated() {
    assert_eq!(
        Update::from_bytes(&[0x00, 0x05, 0x08, 0x0A]).unwrap_err().kind,
        ErrorKind::TruncatedRouteList
    );
    assert_eq!(Update::from_bytes(&[0xFF, 0xFF]).unwrap_err().kind, ErrorKind::TruncatedRouteList);
}

#[test]
fn update_invalid_prefix_length_is_reported() {
    let body = [0x00, 0x02, 0x21, 0x0A, 0x00, 0x00];
    assert_eq!(Update::from_bytes(&body).unwrap_err().kind, ErrorKind::InvalidPrefixLength);
    // among the announced routes
    let body = [0x00, 0x00, 0x00, 0x00, 0x40, 1, 2, 3, 4, 5, 6, 7, 8];
    assert_eq!(Update::from_bytes(&body).unwrap_err().kind, ErrorKind::InvalidPrefixLength);
}

#[test]
fn update_announced_route_cut_by_the_end_is_truncated() {
    let body = [0x00, 0x00, 0x00, 0x00, 0x18, 0x0A, 0x01];
    assert_eq!(Update::from_bytes(&body).unwrap_err().kind, ErrorKind::TruncatedRouteList);
}

#[test]
fn update_missing_lengths_are_incomplete_reads() {
    assert_eq!(Update::from_bytes(&[]).unwrap_err().kind, ErrorKind::IncompleteRead);
    assert_eq!(Update::from_bytes(&[0x00]).unwrap_err().kind, ErrorKind::IncompleteRead);
    // no attribute length
    assert_eq!(Update::from_bytes(&[0x00, 0x00]).unwrap_err().kind, ErrorKind::IncompleteRead);
    assert_eq!(Update::from_bytes(&[0x00, 0x00, 0x00]).unwrap_err().kind, ErrorKind::IncompleteRead);
    // attribute length beyond the body
    assert_eq!(
        Update::from_bytes(&[0x00, 0x00, 0x00, 0x04, 0x40, 1, 1]).unwrap_err().kind,
        ErrorKind::IncompleteRead
    );
}

#[test]
fn update_attribute_across_its_boundary_is_incomplete_read() {
    // The attributes have four octets; the record in them declares a value of two.
    let body = [0x00, 0x00, 0x00, 0x04, 0x40, 1, 2, 0xAA, 0xBB, 0x00];
    assert_eq!(Update::from_bytes(&body).unwrap_err().kind, ErrorKind::IncompleteRead);
    // Two octets are no record at all.
    let body = [0x00, 0x00, 0x00, 0x02, 0x40, 1];
    assert_eq!(Update::from_bytes(&body).unwrap_err().kind, ErrorKind::IncompleteRead);
}

#[test]
fn update_write_body_exact_octets() {
    let mut out = Vec::new();
    sample_update().write_body(&mut out).unwrap();
    assert_eq!(out, sample_body());
}

#[test]
fn update_write_bytes_wraps_the_body_in_a_header() {
    let mut out = vec![0x55u8];
    sample_update().write_bytes(&mut out).unwrap();
    let mut expected = vec![0x55u8];
    expected.extend_from_slice(&[0xFF; 16]);
    expected.extend_from_slice(&[0x00, 0x28, 0x02]);
    expected.extend_from_slice(&sample_body());
    assert_eq!(out, expected);
}

#[test]
fn update_round_trip() {
    let u = sample_update();
    let mut out = Vec::new();
    u.write_body(&mut out).unwrap();
    assert_eq!(Update::from_bytes(&out).unwrap(), u);
}

#[test]
fn update_write_refuses_a_bad_route_first() {
    let mut u = sample_update();
    u.nlri.push(route(40, &[1, 2, 3, 4, 5]));
    u.path_attributes.push(attribute(0x40, 1, &vec![0u8; 300]));
    let mut out = vec![3u8];
    assert_eq!(u.write_body(&mut out).unwrap_err().kind, ErrorKind::InvalidPrefixLength);
    assert_eq!(u.write_bytes(&mut out).unwrap_err().kind, ErrorKind::InvalidPrefixLength);
    assert_eq!(out, vec![3u8]);
}

#[test]
fn update_write_refuses_what_does_not_fit() {
    let mut u = sample_update();
    u.path_attributes.push(attribute(0x40, 1, &vec![0u8; 300]));
    let mut out = vec![3u8];
    assert_eq!(u.write_bytes(&mut out).unwrap_err().kind, ErrorKind::FrameTooLong);
    assert_eq!(out, vec![3u8]);

    // 4 + 4073 octets of body is the most there is
    let fits = Update {
        withdrawn_routes: vec![],
        path_attributes: vec![attribute(0x50, 1, &vec![0u8; 4069])],
        nlri: vec![],
    };
    let mut out = Vec::new();
    fits.write_bytes(&mut out).unwrap();
    assert_eq!(out.len(), 4096);
    assert_eq!(&out[16..19], &[0x10, 0x00, 0x02]);

    let too_long = Update {
        withdrawn_routes: vec![],
        path_attributes: vec![attribute(0x50, 1, &vec![0u8; 4070])],
        nlri: vec![],
    };
    let mut out = Vec::new();
    assert_eq!(too_long.write_bytes(&mut out).unwrap_err().kind, ErrorKind::FrameTooLong);
    assert!(out.is_empty());
}
