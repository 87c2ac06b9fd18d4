use bevy_pigeon::pair::{round_trip, WirePair};
use bevy_pigeon::types::{NetName, NetVisibility};

#[test]
fn visibility_round_trips() {
    for start in [true, false] {
        let w = NetVisibility { is_visible: start };
        let back = round_trip::<NetVisibility, NetVisibility>(w);
        assert_eq!(back, NetVisibility { is_visible: start });
    }
}

#[test]
fn name_round_trips() {
    let w = NetName { name: String::from("player one") };
    let back = round_trip::<NetName, NetName>(w);
    assert_eq!(back.name, "player one");
    let empty = round_trip::<NetName, NetName>(NetName { name: String::new() });
    assert_eq!(empty.name, "");
}

#[test]
fn conversions_agree_with_the_projection() {
    let t = NetVisibility { is_visible: true };
    let w = t.into_wire();
    assert_eq!(w, NetVisibility { is_visible: true });
    let back = NetVisibility::from_wire(w);
    assert_eq!(back, t);
}
