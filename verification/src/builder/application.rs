//! Building an application, and looking up its addresses.
use super::finalize::{define_addresses, define_book, finalize, layout};
use crate::memory::define::{Define, DefineView, Value};
use crate::memory::label::AddressReference;
use crate::memory::{add_offset, Address, ZeroPage};
use crate::validator::{AssemblerResult, Error, ErrorView};
use crate::{Module, ModuleView};
use vstd::prelude::*;

pub use crate::{Application, ApplicationView};

verus! {

/// Builder for an [`Application`].
pub struct ApplicationBuilder {
    name: String,
    entry_point: Address,
    modules: Vec<Module>,
    defines: Vec<Define>,
}

impl ApplicationView {
    /// The application with one more define. The address lookup holds its
    /// address from then on.
    pub open spec fn define(self, name: Seq<char>, address: Address) -> ApplicationView {
        ApplicationView {
            defines: self.defines.push(
                DefineView { name, value: Value::of(address), user_count: 0 },
            ),
            address_lookup: self.address_lookup.insert(name, address),
            ..self
        }
    }

    /// The application with one more module.
    pub open spec fn with_module(self, module: ModuleView) -> ApplicationView {
        ApplicationView { modules: self.modules.push(module), ..self }
    }

    /// The application with the defines for the registers of the VIC20.
    pub open spec fn include_vic20_defines(self) -> ApplicationView {
        self
            .define("VIC20_BASE"@, 0xD000)
            .define("VIC20_SPRITE_0_X"@, 0xD000)
            .define("VIC20_SPRITE_0_Y"@, 0xD001)
            .define("VIC20_SPRITE_1_X"@, 0xD002)
            .define("VIC20_SPRITE_1_Y"@, 0xD003)
            .define("VIC20_SPRITE_2_X"@, 0xD004)
            .define("VIC20_SPRITE_2_Y"@, 0xD005)
            .define("VIC20_SPRITE_3_X"@, 0xD006)
            .define("VIC20_SPRITE_3_Y"@, 0xD007)
            .define("VIC20_SPRITE_4_X"@, 0xD008)
            .define("VIC20_SPRITE_4_Y"@, 0xD009)
            .define("VIC20_SPRITE_5_X"@, 0xD00A)
            .define("VIC20_SPRITE_5_Y"@, 0xD00B)
            .define("VIC20_SPRITE_6_X"@, 0xD00C)
            .define("VIC20_SPRITE_6_Y"@, 0xD00D)
            .define("VIC20_SPRITE_7_X"@, 0xD00E)
            .define("VIC20_SPRITE_7_Y"@, 0xD00F)
            .define("VIC20_SPRITE_X_MSB"@, 0xD010)
            .define("VIC20_CONTROL_1"@, 0xD011)
            .define("VIC20_RASTER"@, 0xD012)
            .define("VIC20_LIGHT_PEN_X"@, 0xD013)
            .define("VIC20_LIGHT_PEN_Y"@, 0xD014)
            .define("VIC20_SPRITE_ENABLE"@, 0xD015)
            .define("VIC20_CONTROL_2"@, 0xD016)
            .define("VIC20_SPRITE_EXPAND_X"@, 0xD017)
            .define("VIC20_MEMORY_SETUP"@, 0xD018)
            .define("VIC20_IRQ_STATUS"@, 0xD019)
            .define("VIC20_IRQ_ENABLE"@, 0xD01A)
            .define("VIC20_SPRITE_PRIORITY"@, 0xD01B)
            .define("VIC20_SPRITE_MULTICOLOR"@, 0xD01C)
            .define("VIC20_SPRITE_EXPAND_Y"@, 0xD01D)
            .define("VIC20_SPRITE_COLLISION"@, 0xD01E)
            .define("VIC20_SPRITE_BG_COLLISION"@, 0xD01F)
            .define("VIC20_BORDER_COLOR"@, 0xD020)
            .define("VIC20_BACKGROUND_COLOR"@, 0xD021)
            .define("VIC20_BACKGROUND_COLOR_0"@, 0xD021)
            .define("VIC20_BACKGROUND_COLOR_1"@, 0xD022)
            .define("VIC20_BACKGROUND_COLOR_2"@, 0xD023)
            .define("VIC20_BACKGROUND_COLOR_3"@, 0xD024)
            .define("VIC20_SPRITE_MULTICOLOR_0"@, 0xD025)
            .define("VIC20_SPRITE_MULTICOLOR_1"@, 0xD026)
            .define("VIC20_SPRITE_0_COLOR"@, 0xD027)
            .define("VIC20_SPRITE_1_COLOR"@, 0xD028)
            .define("VIC20_SPRITE_2_COLOR"@, 0xD029)
            .define("VIC20_SPRITE_3_COLOR"@, 0xD02A)
            .define("VIC20_SPRITE_4_COLOR"@, 0xD02B)
            .define("VIC20_SPRITE_5_COLOR"@, 0xD02C)
            .define("VIC20_SPRITE_6_COLOR"@, 0xD02D)
            .define("VIC20_SPRITE_7_COLOR"@, 0xD02E)
    }

    /// The application with the defines for the registers of the SID.
    pub open spec fn include_sid_defines(self) -> ApplicationView {
        self
            .define("SID_BASE"@, 0xD400)
            .define("SID_VOICE_1_FREQ_LO"@, 0xD400)
            .define("SID_VOICE_1_FREQ_HI"@, 0xD401)
            .define("SID_VOICE_1_PW_LO"@, 0xD402)
            .define("SID_VOICE_1_PW_HI"@, 0xD403)
            .define("SID_VOICE_1_CTRL"@, 0xD404)
            .define("SID_VOICE_1_AD"@, 0xD405)
            .define("SID_VOICE_1_SR"@, 0xD406)
            .define("SID_VOICE_2_FREQ_LO"@, 0xD407)
            .define("SID_VOICE_2_FREQ_HI"@, 0xD408)
            .define("SID_VOICE_2_PW_LO"@, 0xD409)
            .define("SID_VOICE_2_PW_HI"@, 0xD40A)
            .define("SID_VOICE_2_CTRL"@, 0xD40B)
            .define("SID_VOICE_2_AD"@, 0xD40C)
            .define("SID_VOICE_2_SR"@, 0xD40D)
            .define("SID_VOICE_3_FREQ_LO"@, 0xD40E)
            .define("SID_VOICE_3_FREQ_HI"@, 0xD40F)
            .define("SID_VOICE_3_PW_LO"@, 0xD410)
            .define("SID_VOICE_3_PW_HI"@, 0xD411)
            .define("SID_VOICE_3_CTRL"@, 0xD412)
            .define("SID_VOICE_3_AD"@, 0xD413)
            .define("SID_VOICE_3_SR"@, 0xD414)
            .define("SID_FILTER_CUTOFF_LO"@, 0xD415)
            .define("SID_FILTER_CUTOFF_HI"@, 0xD416)
            .define("SID_FILTER_CTRL"@, 0xD417)
            .define("SID_VOLUME_FC"@, 0xD418)
            .define("SID_POT_X"@, 0xD419)
            .define("SID_POT_Y"@, 0xD41A)
            .define("SID_OSC3_RANDOM"@, 0xD41B)
            .define("SID_ENV3"@, 0xD41C)
    }
}

/// It makes no difference whether a define is made before or after a module
/// is added: the application is the same, and with it its address lookup and
/// its program.
pub proof fn lemma_define_and_module_commute(
    application: ApplicationView,
    name: Seq<char>,
    address: Address,
    module: ModuleView,
)
    ensures
        application.define(name, address).with_module(module) == application.with_module(
            module,
        ).define(name, address),
{
}

impl View for ApplicationBuilder {
    type V = ApplicationView;

    /// The application as it has been built so far. Its address lookup
    /// holds the defines.
    closed spec fn view(&self) -> ApplicationView {
        ApplicationView {
            name: self.name@,
            entry_point: self.entry_point,
            modules: self.modules@.map_values(|module: Module| module@),
            defines: self.defines@.map_values(|define: Define| define@),
            address_lookup: define_book(self.defines@.map_values(|define: Define| define@)),
        }
    }
}

impl Default for ApplicationBuilder {
    fn default() -> (builder: Self)
        ensures
            builder@ == (ApplicationView {
                name: Seq::empty(),
                entry_point: 0x0800,
                modules: Seq::empty(),
                defines: Seq::empty(),
                address_lookup: Map::empty(),
            }),
    {
        let builder = ApplicationBuilder {
            name: String::new(),
            entry_point: 0x0800,
            modules: Vec::new(),
            defines: Vec::new(),
        };
        assert(builder@.modules =~= Seq::empty());
        assert(builder@.defines =~= Seq::empty());
        builder
    }
}

impl Clone for ApplicationBuilder {
    fn clone(&self) -> (copy: Self)
        ensures
            copy@ == self@,
    {
        let copy = ApplicationBuilder {
            name: self.name.clone(),
            entry_point: self.entry_point,
            modules: self.modules.clone(),
            defines: self.defines.clone(),
        };
        assert(copy.modules@.map_values(|module: Module| module@) =~= self.modules@.map_values(
            |module: Module| module@,
        ));
        assert(copy.defines@.map_values(|define: Define| define@) =~= self.defines@.map_values(
            |define: Define| define@,
        ));
        copy
    }
}

impl ApplicationBuilder {
    /// Set the name of the application.
    ///
    /// Is used in comments when exporting to a dasm source using
    /// [`crate::generator::DasmGenerator`].
    pub fn name(&mut self, name: &str) -> (builder: &mut Self)
        ensures
            builder@ == (ApplicationView { name: name@, ..old(self)@ }),
            *final(self) == *final(builder),
    {
        self.name = name.to_string();
        self
    }

    /// Change the entry point of the application.
    ///
    /// NOTE: When not set to 0x0800
    /// [`crate::builder::InstructionBuilder::add_basic_header`] cannot be used.
    ///
    /// Default entry point is set to 0x0800.
    pub fn entry_point(&mut self, entry_point: Address) -> (builder: &mut Self)
        ensures
            builder@ == (ApplicationView { entry_point, ..old(self)@ }),
            *final(self) == *final(builder),
    {
        self.entry_point = entry_point;
        self
    }

    /// Define a static address.
    ///
    /// When using instructions each address needs to be accessed by its name. This function
    /// allows to add a new named address. Zeropaged and regular addresses are defined in the
    /// same way: the define notes in which page the address lies, and when the program is
    /// generated the actual address decides which opcode is used.
    pub fn define_address(&mut self, name: &str, address: Address) -> (builder: &mut Self)
        ensures
            builder@ == old(self)@.define(name@, address),
            *final(self) == *final(builder),
    {
        let value = if address.is_zeropage() {
            Value::Zeropage(address)
        } else {
            Value::Address(address)
        };
        let ghost before = self@.defines;
        self.defines.push(Define::new(name, value));
        proof {
            assert(self@.defines =~= before.push(
                DefineView { name: name@, value: Value::of(address), user_count: 0 },
            ));
            assert(self@.defines.drop_last() =~= before);
        }
        self
    }

    /// Add the address defines useful when using the VIC20.
    ///
    /// | Address Name                     | Physical Address | Description                                      |
    /// |----------------------------------|-----------------|--------------------------------------------------|
    /// | VIC20_BASE                       | 0xD000          | Base address for VIC registers                  |
    /// | VIC20_SPRITE_0_X                 | 0xD000          | X coordinate of sprite 0                        |
    /// | VIC20_SPRITE_0_Y                 | 0xD001          | Y coordinate of sprite 0                        |
    /// | VIC20_SPRITE_1_X                 | 0xD002          | X coordinate of sprite 1                        |
    /// | VIC20_SPRITE_1_Y                 | 0xD003          | Y coordinate of sprite 1                        |
    /// | VIC20_SPRITE_2_X                 | 0xD004          | X coordinate of sprite 2                        |
    /// | VIC20_SPRITE_2_Y                 | 0xD005          | Y coordinate of sprite 2                        |
    /// | VIC20_SPRITE_3_X                 | 0xD006          | X coordinate of sprite 3                        |
    /// | VIC20_SPRITE_3_Y                 | 0xD007          | Y coordinate of sprite 3                        |
    /// | VIC20_SPRITE_4_X                 | 0xD008          | X coordinate of sprite 4                        |
    /// | VIC20_SPRITE_4_Y                 | 0xD009          | Y coordinate of sprite 4                        |
    /// | VIC20_SPRITE_5_X                 | 0xD00A          | X coordinate of sprite 5                        |
    /// | VIC20_SPRITE_5_Y                 | 0xD00B          | Y coordinate of sprite 5                        |
    /// | VIC20_SPRITE_6_X                 | 0xD00C          | X coordinate of sprite 6                        |
    /// | VIC20_SPRITE_6_Y                 | 0xD00D          | Y coordinate of sprite 6                        |
    /// | VIC20_SPRITE_7_X                 | 0xD00E          | X coordinate of sprite 7                        |
    /// | VIC20_SPRITE_7_Y                 | 0xD00F          | Y coordinate of sprite 7                        |
    /// | VIC20_SPRITE_X_MSB               | 0xD010          | Most significant bit for sprite X coordinates   |
    /// | VIC20_CONTROL_1                  | 0xD011          | Screen control register 1                       |
    /// | VIC20_RASTER                     | 0xD012          | Raster line position                            |
    /// | VIC20_LIGHT_PEN_X                | 0xD013          | Light pen X position                           |
    /// | VIC20_LIGHT_PEN_Y                | 0xD014          | Light pen Y position                           |
    /// | VIC20_SPRITE_ENABLE              | 0xD015          | Enables sprites                                |
    /// | VIC20_CONTROL_2                  | 0xD016          | Screen control register 2                      |
    /// | VIC20_SPRITE_EXPAND_X            | 0xD017          | Expands sprites horizontally                   |
    /// | VIC20_MEMORY_SETUP               | 0xD018          | VIC memory setup                               |
    /// | VIC20_IRQ_STATUS                 | 0xD019          | Interrupt request status                       |
    /// | VIC20_IRQ_ENABLE                 | 0xD01A          | Interrupt request enable                       |
    /// | VIC20_SPRITE_PRIORITY            | 0xD01B          | Sprite priority over background                |
    /// | VIC20_SPRITE_MULTICOLOR          | 0xD01C          | Enables multicolor mode for sprites            |
    /// | VIC20_SPRITE_EXPAND_Y            | 0xD01D          | Expands sprites vertically                     |
    /// | VIC20_SPRITE_COLLISION           | 0xD01E          | Sprite-to-sprite collision detection           |
    /// | VIC20_SPRITE_BG_COLLISION        | 0xD01F          | Sprite-to-background collision detection       |
    /// | VIC20_BORDER_COLOR               | 0xD020          | Border color                                   |
    /// | VIC20_BACKGROUND_COLOR           | 0xD021          | Background color                               |
    /// | VIC20_BACKGROUND_COLOR_0         | 0xD021          | Background color 0                             |
    /// | VIC20_BACKGROUND_COLOR_1         | 0xD022          | Background color 1                             |
    /// | VIC20_BACKGROUND_COLOR_2         | 0xD023          | Background color 2                             |
    /// | VIC20_BACKGROUND_COLOR_3         | 0xD024          | Background color 3                             |
    /// | VIC20_SPRITE_MULTICOLOR_0        | 0xD025          | Multicolor mode color 0 for sprites           |
    /// | VIC20_SPRITE_MULTICOLOR_1        | 0xD026          | Multicolor mode color 1 for sprites           |
    /// | VIC20_SPRITE_0_COLOR             | 0xD027          | Color of sprite 0                              |
    /// | VIC20_SPRITE_1_COLOR             | 0xD028          | Color of sprite 1                              |
    /// | VIC20_SPRITE_2_COLOR             | 0xD029          | Color of sprite 2                              |
    /// | VIC20_SPRITE_3_COLOR             | 0xD02A          | Color of sprite 3                              |
    /// | VIC20_SPRITE_4_COLOR             | 0xD02B          | Color of sprite 4                              |
    /// | VIC20_SPRITE_5_COLOR             | 0xD02C          | Color of sprite 5                              |
    /// | VIC20_SPRITE_6_COLOR             | 0xD02D          | Color of sprite 6                              |
    /// | VIC20_SPRITE_7_COLOR             | 0xD02E          | Color of sprite 7                              |
    pub fn include_vic20_defines(&mut self) -> (builder: &mut Self)
        ensures
            builder@ == old(self)@.include_vic20_defines(),
            *final(self) == *final(builder),
    {
        self
            .define_address("VIC20_BASE", 0xD000)
            .define_address("VIC20_SPRITE_0_X", 0xD000)
            .define_address("VIC20_SPRITE_0_Y", 0xD001)
            .define_address("VIC20_SPRITE_1_X", 0xD002)
            .define_address("VIC20_SPRITE_1_Y", 0xD003)
            .define_address("VIC20_SPRITE_2_X", 0xD004)
            .define_address("VIC20_SPRITE_2_Y", 0xD005)
            .define_address("VIC20_SPRITE_3_X", 0xD006)
            .define_address("VIC20_SPRITE_3_Y", 0xD007)
            .define_address("VIC20_SPRITE_4_X", 0xD008)
            .define_address("VIC20_SPRITE_4_Y", 0xD009)
            .define_address("VIC20_SPRITE_5_X", 0xD00A)
            .define_address("VIC20_SPRITE_5_Y", 0xD00B)
            .define_address("VIC20_SPRITE_6_X", 0xD00C)
            .define_address("VIC20_SPRITE_6_Y", 0xD00D)
            .define_address("VIC20_SPRITE_7_X", 0xD00E)
            .define_address("VIC20_SPRITE_7_Y", 0xD00F)
            .define_address("VIC20_SPRITE_X_MSB", 0xD010)
            .define_address("VIC20_CONTROL_1", 0xD011)
            .define_address("VIC20_RASTER", 0xD012)
            .define_address("VIC20_LIGHT_PEN_X", 0xD013)
            .define_address("VIC20_LIGHT_PEN_Y", 0xD014)
            .define_address("VIC20_SPRITE_ENABLE", 0xD015)
            .define_address("VIC20_CONTROL_2", 0xD016)
            .define_address("VIC20_SPRITE_EXPAND_X", 0xD017)
            .define_address("VIC20_MEMORY_SETUP", 0xD018)
            .define_address("VIC20_IRQ_STATUS", 0xD019)
            .define_address("VIC20_IRQ_ENABLE", 0xD01A)
            .define_address("VIC20_SPRITE_PRIORITY", 0xD01B)
            .define_address("VIC20_SPRITE_MULTICOLOR", 0xD01C)
            .define_address("VIC20_SPRITE_EXPAND_Y", 0xD01D)
            .define_address("VIC20_SPRITE_COLLISION", 0xD01E)
            .define_address("VIC20_SPRITE_BG_COLLISION", 0xD01F)
            .define_address("VIC20_BORDER_COLOR", 0xD020)
            .define_address("VIC20_BACKGROUND_COLOR", 0xD021)
            .define_address("VIC20_BACKGROUND_COLOR_0", 0xD021)
            .define_address("VIC20_BACKGROUND_COLOR_1", 0xD022)
            .define_address("VIC20_BACKGROUND_COLOR_2", 0xD023)
            .define_address("VIC20_BACKGROUND_COLOR_3", 0xD024)
            .define_address("VIC20_SPRITE_MULTICOLOR_0", 0xD025)
            .define_address("VIC20_SPRITE_MULTICOLOR_1", 0xD026)
            .define_address("VIC20_SPRITE_0_COLOR", 0xD027)
            .define_address("VIC20_SPRITE_1_COLOR", 0xD028)
            .define_address("VIC20_SPRITE_2_COLOR", 0xD029)
            .define_address("VIC20_SPRITE_3_COLOR", 0xD02A)
            .define_address("VIC20_SPRITE_4_COLOR", 0xD02B)
            .define_address("VIC20_SPRITE_5_COLOR", 0xD02C)
            .define_address("VIC20_SPRITE_6_COLOR", 0xD02D)
            .define_address("VIC20_SPRITE_7_COLOR", 0xD02E)
    }

    /// Add the address defines useful when using the SID.
    ///
    /// | Address Name                  | Physical Address | Description                                    |
    /// |-------------------------------|-----------------|-------------------------------------------------|
    /// | SID_BASE                      | 0xD400          | Base address for SID registers                  |
    /// | SID_VOICE_1_FREQ_LO           | 0xD400          | Voice 1 frequency (low byte)                    |
    /// | SID_VOICE_1_FREQ_HI           | 0xD401          | Voice 1 frequency (high byte)                   |
    /// | SID_VOICE_1_PW_LO             | 0xD402          | Voice 1 pulse width (low byte)                  |
    /// | SID_VOICE_1_PW_HI             | 0xD403          | Voice 1 pulse width (high byte)                 |
    /// | SID_VOICE_1_CTRL              | 0xD404          | Voice 1 control register                        |
    /// | SID_VOICE_1_AD                | 0xD405          | Voice 1 attack/decay settings                   |
    /// | SID_VOICE_1_SR                | 0xD406          | Voice 1 sustain/release settings                |
    /// | SID_VOICE_2_FREQ_LO           | 0xD407          | Voice 2 frequency (low byte)                    |
    /// | SID_VOICE_2_FREQ_HI           | 0xD408          | Voice 2 frequency (high byte)                   |
    /// | SID_VOICE_2_PW_LO             | 0xD409          | Voice 2 pulse width (low byte)                  |
    /// | SID_VOICE_2_PW_HI             | 0xD40A          | Voice 2 pulse width (high byte)                 |
    /// | SID_VOICE_2_CTRL              | 0xD40B          | Voice 2 control register                        |
    /// | SID_VOICE_2_AD                | 0xD40C          | Voice 2 attack/decay settings                   |
    /// | SID_VOICE_2_SR                | 0xD40D          | Voice 2 sustain/release settings                |
    /// | SID_VOICE_3_FREQ_LO           | 0xD40E          | Voice 3 frequency (low byte)                    |
    /// | SID_VOICE_3_FREQ_HI           | 0xD40F          | Voice 3 frequency (high byte)                   |
    /// | SID_VOICE_3_PW_LO             | 0xD410          | Voice 3 pulse width (low byte)                  |
    /// | SID_VOICE_3_PW_HI             | 0xD411          | Voice 3 pulse width (high byte)                 |
    /// | SID_VOICE_3_CTRL              | 0xD412          | Voice 3 control register                        |
    /// | SID_VOICE_3_AD                | 0xD413          | Voice 3 attack/decay settings                   |
    /// | SID_VOICE_3_SR                | 0xD414          | Voice 3 sustain/release settings                |
    /// | SID_FILTER_CUTOFF_LO          | 0xD415          | Filter cutoff frequency (low byte)              |
    /// | SID_FILTER_CUTOFF_HI          | 0xD416          | Filter cutoff frequency (high byte)             |
    /// | SID_FILTER_CTRL               | 0xD417          | Filter control register                         |
    /// | SID_VOLUME_FC                 | 0xD418          | Volume and filter control                       |
    /// | SID_POT_X                     | 0xD419          | Paddle X position (read)                        |
    /// | SID_POT_Y                     | 0xD41A          | Paddle Y position (read)                        |
    /// | SID_OSC3_RANDOM               | 0xD41B          | Oscillator 3 output/random number generator     |
    /// | SID_ENV3                      | 0xD41C          | Envelope generator for voice 3 (read)           |
    pub fn include_sid_defines(&mut self) -> (builder: &mut Self)
        ensures
            builder@ == old(self)@.include_sid_defines(),
            *final(self) == *final(builder),
    {
        self
            .define_address("SID_BASE", 0xD400)
            .define_address("SID_VOICE_1_FREQ_LO", 0xD400)
            .define_address("SID_VOICE_1_FREQ_HI", 0xD401)
            .define_address("SID_VOICE_1_PW_LO", 0xD402)
            .define_address("SID_VOICE_1_PW_HI", 0xD403)
            .define_address("SID_VOICE_1_CTRL", 0xD404)
            .define_address("SID_VOICE_1_AD", 0xD405)
            .define_address("SID_VOICE_1_SR", 0xD406)
            .define_address("SID_VOICE_2_FREQ_LO", 0xD407)
            .define_address("SID_VOICE_2_FREQ_HI", 0xD408)
            .define_address("SID_VOICE_2_PW_LO", 0xD409)
            .define_address("SID_VOICE_2_PW_HI", 0xD40A)
            .define_address("SID_VOICE_2_CTRL", 0xD40B)
            .define_address("SID_VOICE_2_AD", 0xD40C)
            .define_address("SID_VOICE_2_SR", 0xD40D)
            .define_address("SID_VOICE_3_FREQ_LO", 0xD40E)
            .define_address("SID_VOICE_3_FREQ_HI", 0xD40F)
            .define_address("SID_VOICE_3_PW_LO", 0xD410)
            .define_address("SID_VOICE_3_PW_HI", 0xD411)
            .define_address("SID_VOICE_3_CTRL", 0xD412)
            .define_address("SID_VOICE_3_AD", 0xD413)
            .define_address("SID_VOICE_3_SR", 0xD414)
            .define_address("SID_FILTER_CUTOFF_LO", 0xD415)
            .define_address("SID_FILTER_CUTOFF_HI", 0xD416)
            .define_address("SID_FILTER_CTRL", 0xD417)
            .define_address("SID_VOLUME_FC", 0xD418)
            .define_address("SID_POT_X", 0xD419)
            .define_address("SID_POT_Y", 0xD41A)
            .define_address("SID_OSC3_RANDOM", 0xD41B)
            .define_address("SID_ENV3", 0xD41C)
    }

    /// Add a module to the application.
    pub fn module(&mut self, module: Module) -> (builder: &mut Self)
        ensures
            builder@ == old(self)@.with_module(module@),
            *final(self) == *final(builder),
    {
        let ghost before = self@.modules;
        self.modules.push(module);
        assert(self@.modules =~= before.push(module@));
        self
    }

    /// Build the application: what has been set, and the address lookup
    /// that holds the defines and the address of every label, see [`layout`].
    pub fn finalize(&mut self) -> (application: Application)
        ensures
            application@ == (ApplicationView {
                address_lookup: layout(
                    old(self)@.entry_point,
                    old(self)@.defines,
                    old(self)@.stream(),
                ),
                ..old(self)@
            }),
            *final(self) == *old(self),
    {
        let mut application = Application {
            name: self.name.clone(),
            entry_point: self.entry_point,
            modules: self.modules.clone(),
            defines: self.defines.clone(),
            address_lookup: define_addresses(&self.defines),
        };
        assert(application@.modules =~= self@.modules);
        assert(application@.defines =~= self@.defines);
        finalize(&mut application);
        application
    }
}

/// Is the define at `index` the first with the given name.
pub open spec fn is_first_define(defines: Seq<DefineView>, index: int, name: Seq<char>) -> bool {
    &&& 0 <= index < defines.len()
    &&& defines[index].name == name
    &&& forall|earlier: int| 0 <= earlier < index ==> defines[earlier].name != name
}

impl Application {
    /// The define with the given name, to change it: the first one where
    /// several defines have the name. Nothing but this define changes.
    pub fn define_mut(&mut self, define_name: &String) -> (define: &mut Define)
        requires
            exists|index: int|
                0 <= index < old(self)@.defines.len() && old(self)@.defines[index].name
                    == define_name@,
        ensures
            exists|index: int|
                {
                    &&& is_first_define(old(self)@.defines, index, define_name@)
                    &&& *define == old(self).defines[index]
                    &&& final(self).defines@ == old(self).defines@.update(index, *final(define))
                },
            final(self).name == old(self).name,
            final(self).entry_point == old(self).entry_point,
            final(self).modules == old(self).modules,
            final(self).address_lookup == old(self).address_lookup,
    {
        let ghost views = self@.defines;
        let mut index: usize = 0;
        while index < self.defines.len()
            invariant
                *self == *old(self),
                views == self@.defines,
                index <= self.defines.len(),
                forall|earlier: int| 0 <= earlier < index ==> views[earlier].name != define_name@,
                exists|at: int| 0 <= at < views.len() && views[at].name == define_name@,
            decreases self.defines.len() - index,
        {
            if self.defines[index].name == *define_name {
                assert(is_first_define(views, index as int, define_name@)) by {
                    assert(views[index as int] == self.defines[index as int]@);
                }
                return &mut self.defines[index];
            }
            assert(views[index as int] == self.defines[index as int]@);
            index += 1;
        }
        proof {
            let at = choose|at: int| 0 <= at < views.len() && views[at].name == define_name@;
            assert(views[at].name != define_name@);
        }
        vstd::pervasive::unreached()
    }

    /// The address of a define or label, by its name.
    pub fn lookup_address(&self, address_name: &String) -> (result: AssemblerResult<Address>)
        ensures
            match result {
                Ok(address) => self@.address_lookup.contains_key(address_name@) && address
                    == self@.address_lookup[address_name@],
                Err(error) => !self@.address_lookup.contains_key(address_name@) && error@
                    == ErrorView::AddressNameUnknown(address_name@),
            },
    {
        match self.address_lookup.get(address_name.as_str()) {
            Some(address) => Ok(*address),
            None => Err(Error::AddressNameUnknown(address_name.clone())),
        }
    }

    /// The address that an address reference refers to: the address of its
    /// name, then its offset.
    pub fn address(&self, address_reference: &AddressReference) -> (address: Address)
        requires
            address_reference@.is_known(self@.address_lookup),
        ensures
            address == address_reference@.address(self@.address_lookup),
    {
        match self.address_lookup.get(address_reference.name.as_str()) {
            Some(address) => add_offset(*address, address_reference.offset),
            None => vstd::pervasive::unreached(),
        }
    }
}

} // verus!
