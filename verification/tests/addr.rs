use uring_rt::addr::{
    socket_addr_from_storage, socket_addr_to_storage, AddrError, SockAddr, SockAddrStorage,
    STORAGE_DATA_LEN,
};

#[test]
fn v4_address_image_has_port_and_address_in_network_order() {
    let addr = SockAddr::V4 { ip: [127, 0, 0, 1], port: 8080 };
    let (storage, len) = socket_addr_to_storage(addr);
    assert_eq!(len, 16);
    assert_eq!(storage.family(), 2);
    let data = storage.data();
    assert_eq!(data.len(), STORAGE_DATA_LEN);
    assert_eq!(&data[0..6], &[0x1f, 0x90, 127, 0, 0, 1]);
    assert!(data[6..].iter().all(|b| *b == 0));
}

#[test]
fn v6_address_image_has_port_and_address_at_their_offsets() {
    let mut ip = [0u8; 16];
    ip[15] = 1;
    ip[0] = 0xfe;
    let addr = SockAddr::V6 { ip, port: 443 };
    let (storage, len) = socket_addr_to_storage(addr);
    assert_eq!(len, 28);
    assert_eq!(storage.family(), 10);
    let data = storage.data();
    assert_eq!(&data[0..2], &[0x01, 0xbb]);
    assert_eq!(&data[2..6], &[0, 0, 0, 0]);
    assert_eq!(&data[6..22], &ip);
    assert!(data[22..].iter().all(|b| *b == 0));
}

#[test]
fn address_round_trips_through_storage() {
    let addrs = [
        SockAddr::V4 { ip: [10, 1, 2, 3], port: 0 },
        SockAddr::V4 { ip: [255, 255, 255, 255], port: 65535 },
        SockAddr::V6 { ip: [0x20, 0x01, 0x0d, 0xb8, 0, 0, 0, 0, 0, 0, 0, 0, 0, 0, 0, 7], port: 1 },
    ];
    for addr in addrs {
        let (storage, len) = socket_addr_to_storage(addr);
        assert_eq!(socket_addr_from_storage(&storage, len), Ok(addr));
    }
}

#[test]
fn storage_is_read_as_its_family_says() {
    let mut data = vec![0u8; STORAGE_DATA_LEN];
    data[0] = 0x12;
    data[1] = 0x34;
    data[2..6].copy_from_slice(&[192, 168, 0, 9]);
    let storage = SockAddrStorage::from_parts(2, data).unwrap();
    assert_eq!(
        socket_addr_from_storage(&storage, 16),
        Ok(SockAddr::V4 { ip: [192, 168, 0, 9], port: 0x1234 })
    );
}

#[test]
fn unknown_family_is_refused() {
    let storage = SockAddrStorage::from_parts(1, vec![0u8; STORAGE_DATA_LEN]).unwrap();
    assert_eq!(socket_addr_from_storage(&storage, 110), Err(AddrError::InvalidFamily));
}

#[test]
fn storage_needs_exactly_the_bytes_after_the_family() {
    assert!(SockAddrStorage::from_parts(2, vec![0u8; 125]).is_none());
    assert!(SockAddrStorage::from_parts(2, vec![0u8; 127]).is_none());
    assert!(SockAddrStorage::from_parts(2, vec![0u8; 126]).is_some());
}
