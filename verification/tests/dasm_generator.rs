use c64_assembler::builder::{
    ApplicationBuilder, FunctionBuilder, InstructionBuilder, ModuleBuilder,
};
use c64_assembler::generator::{DasmGenerator, Generator};
use c64_assembler::validator::AssemblerResult;

/// X address indexing was written as absolute load.
#[test]
fn dasm_v0_1_0_missing_x_indexing() -> AssemblerResult<()> {
    let application = ApplicationBuilder::default()
        .module(
            ModuleBuilder::default()
                .instructions(
                    InstructionBuilder::default()
                        .lda_addr_x("label_a")
                        .label("label_a")
                        .finalize(),
                )
                .finalize(),
        )
        .finalize();
    let dasm_source = DasmGenerator::default().generate(application)?;
    assert!(dasm_source.contains("lda label_a,x"));
    Ok(())
}

/// Y address indexing was written as absolute load.
#[test]
fn dasm_v0_1_0_missing_y_indexing() -> AssemblerResult<()> {
    let application = ApplicationBuilder::default()
        .module(
            ModuleBuilder::default()
                .instructions(
                    InstructionBuilder::default()
                        .lda_addr_y("label_a")
                        .label("label_a")
                        .finalize(),
                )
                .finalize(),
        )
        .finalize();
    let dasm_source = DasmGenerator::default().generate(application)?;
    assert!(dasm_source.contains("lda label_a,y"));
    Ok(())
}

#[test]
fn dasm_listing_of_black_border() {
    let application = ApplicationBuilder::default()
        .name("Set black border")
        .define_address("VIC20_BORDER_COLOR", 0xD020)
        .define_address("ZEROPAGE_FE", 0xFE)
        .module(
            ModuleBuilder::default()
                .name("main")
                .instructions(
                    InstructionBuilder::default()
                        .add_basic_header()
                        .label("main_entry_point")
                        .lda_imm(0x00)
                        .comment("Load black color")
                        .sta_addr("VIC20_BORDER_COLOR")
                        .rts()
                        .finalize(),
                )
                .finalize(),
        )
        .finalize();
    let source = DasmGenerator::default().generate(application).unwrap();
    let expected = [
        "; --- Application: SET BLACK BORDER ---",
        "; NOTE: This file is generated, do not modify",
        "",
        "  processor 6502",
        "",
        "VIC20_BORDER_COLOR = $D020",
        "ZEROPAGE_FE = $FE",
        "",
        "  org $0800",
        "",
        "; --- Module begin: MAIN ---",
        "  ; New basic line",
        "  byte $00, $0C, $08",
        "  ; 10 SYS 2062",
        "  byte $0A, $00, $9E, $20, $32, $30, $36, $32",
        "  ; End basic program",
        "  byte $00, $00, $00",
        "main_entry_point:",
        "  ; Load black color",
        "  lda #$00",
        "  sta VIC20_BORDER_COLOR",
        "  rts",
        "; --- Module end: MAIN ---",
    ]
    .join("\n");
    assert_eq!(expected, source);
}

#[test]
fn dasm_listing_of_every_address_mode() {
    let application = ApplicationBuilder::default()
        .entry_point(0xC000)
        .module(
            ModuleBuilder::default()
                .name("modes")
                .instructions(
                    InstructionBuilder::default()
                        .asl_acc()
                        .lda_imm(0xAB)
                        .lda_imm_low("data")
                        .lda_imm_high("data")
                        .lda_addr("data")
                        .lda_addr_offs("data", 0x12)
                        .lda_addr_x("data")
                        .lda_addr_y("data")
                        .bne_addr("data")
                        .jmp_ind("data")
                        .lda_ind_x("data")
                        .lda_ind_y("data")
                        .raw(&[])
                        .finalize(),
                )
                .function(
                    FunctionBuilder::default()
                        .name("tail")
                        .doc(&["Holds the data.", "Nothing else."])
                        .instructions(
                            InstructionBuilder::default().label("data").raw(&[0xFF]).finalize(),
                        )
                        .build(),
                )
                .finalize(),
        )
        .finalize();
    let source = DasmGenerator::default().generate(application).unwrap();
    let expected = [
        "; --- Application:  ---",
        "; NOTE: This file is generated, do not modify",
        "",
        "  processor 6502",
        "",
        "",
        "  org $C000",
        "",
        "; --- Module begin: MODES ---",
        "  asl",
        "  lda #$AB",
        "  lda #<data",
        "  lda #>data",
        "  lda data",
        "  lda data+$0012",
        "  lda data,x",
        "  lda data,y",
        "  bne data",
        "  jmp (data)",
        "  lda (data,x)",
        "  lda (data),y",
        "; --- Function begin: TAIL ---",
        "; Holds the data.",
        "; Nothing else.",
        "data:",
        "  byte $FF",
        "; --- Function end: TAIL ---",
        "; --- Module end: MODES ---",
    ]
    .join("\n");
    assert_eq!(expected, source);
}

#[test]
fn dasm_listing_of_empty_application() {
    let application = ApplicationBuilder::default().finalize();
    let source = DasmGenerator::default().generate(application).unwrap();
    let expected = [
        "; --- Application:  ---",
        "; NOTE: This file is generated, do not modify",
        "",
        "  processor 6502",
        "",
        "",
        "  org $0800",
        "",
    ]
    .join("\n");
    assert_eq!(expected, source);
}
