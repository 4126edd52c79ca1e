use chip8::dump::hex_digit;
use chip8::Cpu;

fn dump_of(cpu: &Cpu) -> Vec<String> {
    cpu.state_dump()
        .into_iter()
        .map(|line| line.into_iter().collect::<String>())
        .collect()
}

#[test]
fn hex_digits_are_upper_case() {
    let digits: String = (0..16u8).map(hex_digit).collect();
    assert_eq!(digits, "0123456789ABCDEF");
}

#[test]
fn dump_of_new_machine() {
    let cpu = Cpu::new();
    assert_eq!(
        dump_of(&cpu),
        vec![
            "PC 0000",
            "V00: 00      V04: 00      V08: 00      V12: 00",
            "V01: 00      V05: 00      V09: 00      V13: 00",
            "V02: 00      V06: 00      V10: 00      V14: 00",
            "V03: 00      V07: 00      V11: 00      V15: 00",
            "SP 0",
            "V00: 0000    V04: 0000    V08: 0000    V12: 0000",
            "V01: 0000    V05: 0000    V09: 0000    V13: 0000",
            "V02: 0000    V06: 0000    V10: 0000    V14: 0000",
            "V03: 0000    V07: 0000    V11: 0000    V15: 0000",
        ]
    );
}

#[test]
fn dump_shows_values_in_hexadecimal() {
    let mut cpu = Cpu::new();
    cpu.pc = 0x02AE;
    cpu.sp = 16;
    for k in 0..16 {
        cpu.v[k] = (k as u8) * 17;
        cpu.stack[k] = 0x1000 * (k as u16) + 0x0ABC;
    }
    assert_eq!(
        dump_of(&cpu),
        vec![
            "PC 02AE",
            "V00: 00      V04: 44      V08: 88      V12: CC",
            "V01: 11      V05: 55      V09: 99      V13: DD",
            "V02: 22      V06: 66      V10: AA      V14: EE",
            "V03: 33      V07: 77      V11: BB      V15: FF",
            "SP 10",
            "V00: 0ABC    V04: 4ABC    V08: 8ABC    V12: CABC",
            "V01: 1ABC    V05: 5ABC    V09: 9ABC    V13: DABC",
            "V02: 2ABC    V06: 6ABC    V10: AABC    V14: EABC",
            "V03: 3ABC    V07: 7ABC    V11: BABC    V15: FABC",
        ]
    );
}

#[test]
fn dump_matches_std_formatting() {
    let mut cpu = Cpu::new();
    cpu.pc = 0xFFFF;
    cpu.sp = 0xA;
    cpu.v[5] = 0x0F;
    cpu.v[13] = 0xF0;
    cpu.stack[2] = 0x00F0;
    let lines = dump_of(&cpu);
    assert_eq!(lines[0], format!("PC {:04X}", cpu.pc));
    assert_eq!(lines[5], format!("SP {:X}", cpu.sp));
    assert_eq!(
        lines[2],
        format!(
            "V{:02}: {:02X}      V{:02}: {:02X}      V{:02}: {:02X}      V{:02}: {:02X}",
            1, cpu.v[1], 5, cpu.v[5], 9, cpu.v[9], 13, cpu.v[13]
        )
    );
    assert_eq!(
        lines[8],
        format!(
            "V{:02}: {:04X}    V{:02}: {:04X}    V{:02}: {:04X}    V{:02}: {:04X}",
            2, cpu.stack[2], 6, cpu.stack[6], 10, cpu.stack[10], 14, cpu.stack[14]
        )
    );
}

#[test]
fn dump_changes_nothing() {
    let mut cpu = Cpu::new();
    cpu.pc = 0x200;
    cpu.v[1] = 7;
    let _ = cpu.state_dump();
    assert_eq!(cpu.pc, 0x200);
    assert_eq!(cpu.v[1], 7);
}
