//! What the web handlers decide: the records they store and where they
//! send the visitor.

pub mod access;
pub mod creatures;
pub mod forms;
pub mod items;
pub mod masks;

pub use forms::{
    AttackForm, CopyWithMaskForm, CreatureForm, DeleteForm, ManeuverForm, MaskAttackForm,
    MaskForm, MaskManeuverForm, MaskPowerForm, MaskTalentForm, PowerForm, SearchForm,
    TalentForm,
};
