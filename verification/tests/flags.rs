use discord2::enums::{EnumFromIntegerError, IntegerEnum, ParseEnumError, StringEnum, WireInteger};
use discord2::flags::Flags;
use discord2::permissions::Permissions;
use discord2::resources::application::{ApplicationFlags, InteractionCallbackFlags};
use discord2::resources::channel::{MessageFlags, ThreadMemberFlags};
use discord2::resources::guild::SystemChannelFlags;
use discord2::resources::user::UserFlags;
use discord2::wire::Primitive;

use std::convert::TryFrom;
use std::str::FromStr;

#[test]
fn permissions_from_text() {
    let expected = Permissions::CREATE_INSTANT_INVITE
        | Permissions::KICK_MEMBERS
        | Permissions::BAN_MEMBERS
        | Permissions::ADMINISTRATOR
        | Permissions::MANAGE_CHANNELS
        | Permissions::MANAGE_GUILD
        | Permissions::VIEW_CHANNEL
        | Permissions::SEND_MESSAGES
        | Permissions::SEND_TTS_MESSAGES
        | Permissions::MANAGE_MESSAGES
        | Permissions::EMBED_LINKS
        | Permissions::ATTACH_FILES
        | Permissions::READ_MESSAGE_HISTORY
        | Permissions::MENTION_EVERYONE
        | Permissions::CONNECT
        | Permissions::SPEAK
        | Permissions::MUTE_MEMBERS
        | Permissions::DEAFEN_MEMBERS
        | Permissions::MOVE_MEMBERS
        | Permissions::USE_VAD;
    assert_eq!(expected, 66321471);
    let read = Permissions::from_str("66321471").unwrap();
    assert_eq!(read.bits(), expected);
    assert_eq!(read.to_string(), "66321471");
    assert_eq!(Permissions::from_str("+0066321471").unwrap().to_string(), "66321471");
    assert_eq!(read, Permissions::from_bits(expected).unwrap());
    let kept = StringEnum::<Permissions>::decode("66321471".to_owned());
    assert_eq!(kept.unwrap(), read);
    assert!(read.contains(Permissions::from_bits(Permissions::ADMINISTRATOR).unwrap()));
    assert!(!read.contains(Permissions::from_bits(Permissions::MANAGE_ROLES).unwrap()));
}

#[test]
fn permissions_text_that_is_no_set() {
    for txt in ["", "x", "-1", "8589934592", "18446744073709551615", "18446744073709551616"] {
        assert_eq!(Permissions::from_str(txt), Err(ParseEnumError::new(txt.to_owned())));
        let kept = StringEnum::<Permissions>::decode(txt.to_owned());
        assert_eq!(kept.try_unwrap(), Err(ParseEnumError { raw: txt.to_owned() }));
    }
    assert_eq!(Permissions::ALL, 0x1D_FFFF_FFFF);
    assert_eq!(Permissions::from_str("0").unwrap(), Permissions::empty());
    assert_eq!(Permissions::from_str("128849018879").unwrap(), Permissions::all());
}

#[test]
fn from_bits_takes_named_bits_only() {
    assert_eq!(UserFlags::ALL, 0x347CF);
    for bits in [0u64, 1, 2, 0x347CF, 1 << 17, (1 << 16) | (1 << 6)] {
        let f = UserFlags::from_bits(bits).unwrap();
        assert_eq!(f.bits(), bits);
        assert_eq!(u64::from(f), bits);
        assert_eq!(UserFlags::try_from(bits), Ok(f));
        assert_eq!(UserFlags::from_wire(bits), Some(f));
        assert_eq!(f.to_wire(), bits);
        assert_eq!(UserFlags::from_bits_truncate(bits), f);
    }
    for bits in [1u64 << 4, 1 << 5, 1 << 18, 1 << 63, u64::MAX, (1 << 4) | 1] {
        assert_eq!(UserFlags::from_bits(bits), None);
        assert_eq!(UserFlags::try_from(bits), Err(EnumFromIntegerError::new(bits)));
        assert_eq!(UserFlags::from_bits_truncate(bits).bits(), bits & UserFlags::ALL);
    }
    assert_eq!(ThreadMemberFlags::ALL, 0);
    assert_eq!(ThreadMemberFlags::from_bits(0), Some(ThreadMemberFlags::empty()));
    assert_eq!(ThreadMemberFlags::from_bits(1), None);
    assert_eq!(InteractionCallbackFlags::ALL, 64);
    assert_eq!(MessageFlags::ALL, 255);
    assert_eq!(ApplicationFlags::ALL, 0x3F814);
    assert_eq!(SystemChannelFlags::from_bits(SystemChannelFlags::ALL).unwrap(), SystemChannelFlags::all());
}

#[test]
fn unknown_bits_are_kept() {
    for bits in [0u64, 3, 1 << 4, 1 << 40, u64::MAX] {
        let kept = IntegerEnum::<UserFlags>::deserialize(&Primitive::Unsigned(bits)).unwrap();
        assert_eq!(kept.encode(), bits);
        assert_eq!(kept.serialize(), Primitive::Unsigned(bits));
        match UserFlags::from_bits(bits) {
            Some(f) => assert_eq!(kept.try_unwrap(), Ok(f)),
            None => assert_eq!(kept.try_unwrap(), Err(EnumFromIntegerError { raw: bits })),
        }
    }
}

#[test]
fn set_operations() {
    let a = MessageFlags::from_bits(MessageFlags::CROSSPOSTED | MessageFlags::URGENT).unwrap();
    let b = MessageFlags::from_bits(MessageFlags::URGENT | MessageFlags::EPHEMERAL).unwrap();
    assert_eq!((a | b).bits(), 0b1010001);
    assert_eq!((a & b).bits(), 0b0010000);
    assert_eq!((a ^ b).bits(), 0b1000001);
    assert_eq!((!a).bits(), 0b11101110);
    assert_eq!(a.union(b), a | b);
    assert_eq!(a.intersection(b), a & b);
    assert_eq!(a.symmetric_difference(b), a ^ b);
    assert_eq!(a.complement(), !a);
    assert_eq!(a.difference(b).bits(), 0b0000001);
    assert!(a.intersects(b));
    assert!(!a.contains(b));
    assert!((a | b).contains(b));
    assert!(!a.is_empty());
    assert!(MessageFlags::empty().is_empty());
    assert!(MessageFlags::all().is_all());
    assert!(!a.is_all());
    assert_eq!(MessageFlags::all().bits(), 255);
    assert_eq!(MessageFlags::named_bits(), 255);

    let mut c = a;
    c.insert(b);
    assert_eq!(c, a | b);
    c.remove(a);
    assert_eq!(c.bits(), MessageFlags::EPHEMERAL);
    c.toggle(b);
    assert_eq!(c.bits(), MessageFlags::URGENT);
    c.set(a, true);
    assert_eq!(c, a);
    c.set(a, false);
    assert!(c.is_empty());
    assert!(a < b);
}
