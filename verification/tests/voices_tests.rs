use music::voices::{drive_hand, silence, HandVoicing, OscState, Register, VoiceBank};

fn voice(active: bool, register: Register) -> OscState {
    OscState { active, register }
}

#[test]
fn drive_hand_follows_held_fingers() {
    let mut states = [voice(false, Register::Middle); 5];
    drive_hand(&mut states, [true, false, true, false, false], Register::High);
    assert_eq!(
        states,
        [
            voice(true, Register::High),
            voice(false, Register::High),
            voice(true, Register::High),
            voice(false, Register::High),
            voice(false, Register::High),
        ]
    );
}

#[test]
fn silence_keeps_registers() {
    let mut states = [voice(true, Register::Low); 5];
    states[2] = voice(true, Register::High);
    silence(&mut states);
    assert_eq!(states[0], voice(false, Register::Low));
    assert_eq!(states[2], voice(false, Register::High));
    let before = states;
    silence(&mut states);
    assert_eq!(states, before);
}

#[test]
fn absent_side_is_silenced() {
    let mut bank = VoiceBank::new();
    bank.update(&[
        HandVoicing { is_right: true, register: Register::High, held: [true; 5] },
        HandVoicing { is_right: false, register: Register::Low, held: [true; 5] },
    ]);
    assert!(bank.left.iter().all(|v| v.active));
    bank.update(&[HandVoicing { is_right: true, register: Register::Middle, held: [false, true, false, false, false] }]);
    assert!(bank.left.iter().all(|v| !v.active));
    assert!(bank.left.iter().all(|v| v.register == Register::Low));
    assert_eq!(bank.right[1], voice(true, Register::Middle));
    assert_eq!(bank.right[0], voice(false, Register::Middle));
}

#[test]
fn last_hand_of_a_side_wins() {
    let mut bank = VoiceBank::new();
    bank.update(&[
        HandVoicing { is_right: false, register: Register::High, held: [true; 5] },
        HandVoicing { is_right: false, register: Register::Low, held: [false, false, false, false, true] },
    ]);
    assert_eq!(bank.left[4], voice(true, Register::Low));
    assert_eq!(bank.left[0], voice(false, Register::Low));
    assert!(bank.right.iter().all(|v| *v == voice(false, Register::Middle)));
}

#[test]
fn no_hands_silences_everything() {
    let mut bank = VoiceBank::new();
    bank.update(&[HandVoicing { is_right: true, register: Register::High, held: [true; 5] }]);
    bank.update(&[]);
    assert!(bank.right.iter().all(|v| !v.active && v.register == Register::High));
    assert!(bank.left.iter().all(|v| !v.active));
}
