use c64_assembler::builder::{ApplicationBuilder, InstructionBuilder, ModuleBuilder};
use c64_assembler::generator::{Generator, ProgramGenerator};
use mos6502::cpu::CPU;
use mos6502::instruction::Nmos6502;
use mos6502::memory::{Bus, Memory};

#[test]
fn set_black_border() {
    let application = ApplicationBuilder::default()
        .name("Set black border")
        .include_vic20_defines()
        .module(
            ModuleBuilder::default()
                .name("main")
                .instructions(
                    InstructionBuilder::default()
                        .label("main_entry_point")
                        .lda_imm(0x00)
                        .comment("Load black color into accumulator")
                        .sta_addr("VIC20_BORDER_COLOR")
                        .rts()
                        .finalize(),
                )
                .finalize(),
        )
        .finalize();

    let bytes = ProgramGenerator::default().generate(application).unwrap();

    // Emulate the program on 6502 CPU
    let mut cpu = CPU::new(Memory::new(), Nmos6502);

    cpu.memory.set_bytes(0x0800, &bytes[2..]);
    cpu.memory.set_byte(0xd020, 0xFF);
    cpu.registers.program_counter = 0x0800;

    cpu.single_step();
    assert_eq!(0xFF, cpu.memory.get_byte(0xd020));
    cpu.single_step();
    assert_eq!(0x00, cpu.memory.get_byte(0xd020));
    cpu.single_step();
}
