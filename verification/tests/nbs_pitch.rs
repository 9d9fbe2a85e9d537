use stasis_bot::nbs::defs::{NbsPitch, NbsInstrument};

#[test]
fn pitch_cycles_after_twenty_five_steps() {
    let mut p = NbsPitch::values()[0];
    for _ in 0..25 {
        p = p.next();
    }
    assert_eq!(p.ordinal(), 0);
}

#[test]
fn instrument_names_round_trip() {
    for i in NbsInstrument::values() {
        assert_eq!(NbsInstrument::from_name(i.name()).map(|x| x.index()), Some(i.index()));
    }
}
