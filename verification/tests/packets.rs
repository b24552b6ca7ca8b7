//! Message catalog behavior: stat entries, table-driven dispatch, the
//! manual adapters, and typed round trips.

use realmpipe::adapters::rle::RLE;
use realmpipe::adapters::{Error, Invalid, NetworkAdapter, Reader};
use realmpipe::gamedata::stat::{StatData, StatType};
use realmpipe::packets::{
    client, server, EnemyShoot, InternalPacketId, Packet, Pic,
};
use realmpipe::adapters::primitives::F32Bits;
use realmpipe::gamedata::basic::WorldPosData;

#[test]
fn check_stattype_size() {
    assert_eq!(
        std::mem::size_of::<Option<StatType>>(),
        std::mem::size_of::<StatType>()
    );
}

#[test]
fn stat_type_bytes() {
    assert_eq!(StatType::from_byte(0), Some(StatType::MAX_HP_STAT));
    assert_eq!(StatType::from_byte(31), Some(StatType::NAME_STAT));
    assert_eq!(StatType::from_byte(23), None);
    assert_eq!(StatType::MAX_HP_STAT.to_byte(), 0);
    assert_eq!(StatType::NAME_STAT.to_byte(), 31);
    assert!(StatType::NAME_STAT.is_string_stat());
    assert!(!StatType::HP_STAT.is_string_stat());
}

#[test]
fn stat_data_roundtrip() {
    let mut buf = vec![];
    StatData::Integer(StatType::HP_STAT, 100)
        .put_be(&mut buf)
        .expect("encoding error");
    assert_eq!(buf, vec![1, 0, 0, 0, 100]);
    let mut rd = Reader::new(buf);
    assert_eq!(
        StatData::get_be(&mut rd).expect("decoding error"),
        StatData::Integer(StatType::HP_STAT, 100)
    );

    let mut buf = vec![];
    StatData::String(StatType::NAME_STAT, "bob".to_owned())
        .put_be(&mut buf)
        .expect("encoding error");
    assert_eq!(buf, vec![31, 0, 3, b'b', b'o', b'b']);
    let mut rd = Reader::new(buf);
    assert_eq!(
        StatData::get_be(&mut rd).expect("decoding error"),
        StatData::String(StatType::NAME_STAT, "bob".to_owned())
    );
}

#[test]
fn stat_errors() {
    let mut rd = Reader::new(vec![23, 0, 0, 0, 1]);
    assert!(matches!(
        StatData::get_be(&mut rd),
        Err(Error::InvalidData(Invalid::UnknownStat(23)))
    ));
    let mut buf = vec![];
    assert!(matches!(
        StatData::Integer(StatType::NAME_STAT, 5).put_be(&mut buf),
        Err(Error::InvalidData(Invalid::StatMismatch))
    ));
}

#[test]
fn packet_dispatch_roundtrip() {
    let p = Packet::Teleport(client::Teleport { object_id: 9 });
    assert_eq!(p.get_internal_id(), InternalPacketId::Teleport);
    assert!(InternalPacketId::Teleport.is_client());
    assert!(!InternalPacketId::Teleport.is_server());
    assert!(InternalPacketId::Update.is_server());
    assert_eq!(p.get_name(), "Teleport");
    assert_eq!(InternalPacketId::Update.get_name(), "Update");

    let mut buf = vec![];
    p.clone().to_bytes(&mut buf).expect("encoding error");
    assert_eq!(buf, vec![0, 0, 0, 9]);
    let mut rd = Reader::new(buf);
    let back = Packet::from_bytes(InternalPacketId::Teleport, &mut rd).expect("decoding error");
    assert_eq!(back, p);
}

#[test]
fn hello_roundtrip() {
    let hello = client::Hello {
        build_version: RLE::new("X1.2.3".to_owned()),
        game_id: 7,
        guid: RLE::new("guid".to_owned()),
        rand1: 1,
        password: RLE::new("pw".to_owned()),
        rand2: 2,
        secret: RLE::new("".to_owned()),
        key_time: 3,
        key: RLE::new(vec![1, 2, 3]),
        map_json: RLE::new("{}".to_owned()),
        entry_tag: RLE::new("tag".to_owned()),
        game_net: RLE::new("net".to_owned()),
        game_net_user_id: RLE::new("uid".to_owned()),
        play_platform: RLE::new("plat".to_owned()),
        platform_token: RLE::new("tok".to_owned()),
        user_token: RLE::new("ut".to_owned()),
    };
    let p = Packet::Hello(hello);
    let mut buf = vec![];
    p.clone().to_bytes(&mut buf).expect("encoding error");
    let mut rd = Reader::new(buf);
    let back = Packet::from_bytes(InternalPacketId::Hello, &mut rd).expect("decoding error");
    assert_eq!(back, p);
}

#[test]
fn enemy_shoot_optionals() {
    let base = EnemyShoot {
        bullet_id: 1,
        owner_id: 2,
        bullet_type: 3,
        starting_pos: WorldPosData {
            x: F32Bits(1.0f32.to_bits()),
            y: F32Bits(2.0f32.to_bits()),
        },
        angle: F32Bits(0.5f32.to_bits()),
        damage: 40,
        num_shots: None,
        angle_inc: None,
    };
    // neither optional present
    let mut buf = vec![];
    base.clone().put_be(&mut buf).expect("encoding error");
    let mut rd = Reader::new(buf);
    assert_eq!(EnemyShoot::get_be(&mut rd).expect("decoding error"), base);

    // both present
    let both = EnemyShoot {
        num_shots: Some(3),
        angle_inc: Some(F32Bits(0.25f32.to_bits())),
        ..base.clone()
    };
    let mut buf = vec![];
    both.clone().put_be(&mut buf).expect("encoding error");
    let mut rd = Reader::new(buf);
    assert_eq!(EnemyShoot::get_be(&mut rd).expect("decoding error"), both);

    // only the count present
    let one = EnemyShoot {
        num_shots: Some(3),
        ..base.clone()
    };
    let mut buf = vec![];
    one.clone().put_be(&mut buf).expect("encoding error");
    let mut rd = Reader::new(buf);
    assert_eq!(EnemyShoot::get_be(&mut rd).expect("decoding error"), one);

    // an absent count before a present increment cannot be encoded
    let gap = EnemyShoot {
        angle_inc: Some(F32Bits(0.25f32.to_bits())),
        ..base
    };
    let mut buf = vec![];
    assert!(matches!(
        gap.put_be(&mut buf),
        Err(Error::InvalidData(Invalid::OptionalGap))
    ));
}

#[test]
fn pic_bitmap() {
    let pic = Pic {
        w: 2,
        h: 1,
        bitmap_data: vec![1, 2, 3, 4, 5, 6, 7, 8],
    };
    let mut buf = vec![];
    pic.clone().put_be(&mut buf).expect("encoding error");
    assert_eq!(buf, vec![0, 0, 0, 2, 0, 0, 0, 1, 1, 2, 3, 4, 5, 6, 7, 8]);
    let mut rd = Reader::new(buf);
    assert_eq!(Pic::get_be(&mut rd).expect("decoding error"), pic);

    // a bitmap whose byte count is not width * height * 4 is refused
    let bad = Pic {
        w: 2,
        h: 1,
        bitmap_data: vec![1, 2, 3],
    };
    let mut buf = vec![];
    assert!(matches!(
        bad.put_be(&mut buf),
        Err(Error::InvalidData(Invalid::BitmapSize))
    ));

    // a truncated bitmap reports insufficient data
    let mut rd = Reader::new(vec![0, 0, 0, 2, 0, 0, 0, 1, 1, 2, 3]);
    assert!(matches!(
        Pic::get_be(&mut rd),
        Err(Error::InsufficientData { remaining: 3, needed: 8 })
    ));
}

#[test]
fn trailing_bytes_are_ignored() {
    // the field list governs how much is read; leftovers stay unread
    let mut rd = Reader::new(vec![0, 0, 0, 9, 0xAA, 0xBB]);
    let p = Packet::from_bytes(InternalPacketId::Teleport, &mut rd).expect("decoding error");
    assert_eq!(p, Packet::Teleport(client::Teleport { object_id: 9 }));
    assert_eq!(rd.remaining(), 2);
}

#[test]
fn server_variant_roundtrip() {
    let p = Packet::Text(server::Text {
        name: RLE::new("guild".to_owned()),
        object_id: 5,
        num_stars: 2,
        bubble_time: 1,
        recipient: RLE::new("r".to_owned()),
        text: RLE::new("hello".to_owned()),
        clean_text: RLE::new("hello".to_owned()),
        is_supporter: false,
    });
    let mut buf = vec![];
    p.clone().to_bytes(&mut buf).expect("encoding error");
    let mut rd = Reader::new(buf);
    let back = Packet::from_bytes(InternalPacketId::Text, &mut rd).expect("decoding error");
    assert_eq!(back, p);
}

#[test]
fn stat_failed_encode_writes_nothing() {
    let long = "x".repeat(70000);
    let mut buf = vec![7u8];
    assert!(StatData::String(StatType::NAME_STAT, long)
        .put_be(&mut buf)
        .is_err());
    assert_eq!(buf, vec![7u8]);
}
