use c64_assembler::builder::{ApplicationBuilder, InstructionBuilder, ModuleBuilder};
use c64_assembler::generator::{hexdump, DasmGenerator, Generator, ProgramGenerator};
use c64_assembler::validator::AssemblerResult;
use c64_assembler::Application;

fn test_application() -> AssemblerResult<Application> {
    Ok(ApplicationBuilder::default()
        .name("test build dasm")
        .include_vic20_defines()
        .module(
            ModuleBuilder::default()
                .name("main")
                .instructions(
                    InstructionBuilder::default()
                        .add_basic_header()
                        .label("main_entry_point")
                        .lda_imm(0x00)
                        .comment("Load black color")
                        .sta_addr("VIC20_BORDER_COLOR")
                        .rts()
                        .finalize(),
                )
                .finalize(),
        )
        .finalize())
}

#[test]
fn build_dasm() -> AssemblerResult<()> {
    let application = test_application()?;
    let dasm_source = DasmGenerator::default().generate(application)?;
    println!("{dasm_source}");
    Ok(())
}

#[test]
fn build_program() -> AssemblerResult<()> {
    let application = test_application()?;
    let mut address = application.entry_point;
    let program_binary = ProgramGenerator::default().generate(application)?;

    // print program to console.
    program_binary.chunks(16).for_each(|chunk| {
        let mut line = Vec::new();

        line.push(format!("{:04X}: ", address));
        address += 16;

        chunk.chunks(4).for_each(|chunk| {
            chunk.iter().for_each(|byte| {
                line.push(format!("{:02X}", byte));
            });
            line.push("".to_string());
        });
        println!("{}", line.join(" ").trim_end());
    });
    Ok(())
}

#[test]
fn hexdump_of_black_border_program() -> AssemblerResult<()> {
    let program = ProgramGenerator::default().generate(test_application()?)?;
    assert_eq!(
        vec![
            "0000:  00 08 00 0C  08 0A 00 9E  20 32 30 36  32 00 00 00".to_string(),
            "0010:  A9 00 8D 20  D0 60".to_string(),
        ],
        hexdump(&program)
    );
    Ok(())
}

#[test]
fn hexdump_matches_formatted_lines() {
    let bytes: Vec<u8> = (0..=255u8).chain(0..77u8).collect();
    let mut expected = Vec::new();
    let mut address = 0;
    bytes.chunks(16).for_each(|chunk| {
        let mut line = Vec::new();
        line.push(format!("{:04X}: ", address));
        address += 16;
        chunk.chunks(4).for_each(|chunk| {
            chunk.iter().for_each(|byte| {
                line.push(format!("{:02X}", byte));
            });
            line.push("".to_string());
        });
        expected.push(line.join(" ").trim_end().to_string());
    });
    assert_eq!(expected, hexdump(&bytes));
}

#[test]
fn hexdump_past_four_digits() {
    let bytes = vec![0x5Au8; 0x1_0000 + 17];
    let lines = hexdump(&bytes);
    assert_eq!(0x1000 + 2, lines.len());
    assert_eq!(
        "FFF0:  5A 5A 5A 5A  5A 5A 5A 5A  5A 5A 5A 5A  5A 5A 5A 5A",
        lines[0xFFF]
    );
    assert_eq!(
        "10000:  5A 5A 5A 5A  5A 5A 5A 5A  5A 5A 5A 5A  5A 5A 5A 5A",
        lines[0x1000]
    );
    assert_eq!("10010:  5A", lines[0x1001]);
}

#[test]
fn hexdump_of_nothing() {
    assert!(hexdump(&[]).is_empty());
}
