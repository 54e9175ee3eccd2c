//! The 64-bit morphological feature bitfield.
//!
//! | Bits   | Feature        | Width |
//! |--------|----------------|-------|
//! | 0–3    | pos            | 4     |
//! | 4–5    | gender         | 2     |
//! | 6–7    | number         | 2     |
//! | 8–9    | person         | 2     |
//! | 10–11  | tense          | 2     |
//! | 12–14  | mood           | 3     |
//! | 15     | voice          | 1     |
//! | 16–17  | case           | 2     |
//! | 18     | state          | 1     |
//! | 19–23  | verb_form      | 5     |
//! | 24–27  | noun_type      | 4     |
//! | 28–31  | pronoun_type   | 4     |
//! | 32–34  | transitivity   | 3     |
//! | 35–38  | root_type      | 4     |
//! | 39–40  | stress_pattern | 2     |
//! | 41–44  | syllable_count | 4     |
//! | 45     | has_shadda     | 1     |
//! | 46     | has_madd       | 1     |
//! | 47     | has_hamza      | 1     |
//! | 48–63  | reserved       | 16    |

use vstd::prelude::*;

verus! {

/// The mask of `width` low bits.
pub open spec fn low_mask(width: u64) -> u64 {
    ((1u64 << width) - 1) as u64
}

/// The value held by the field of `width` bits that starts at bit `start`.
pub open spec fn field_of(raw: u64, start: u64, width: u64) -> u64 {
    (raw >> start) & low_mask(width)
}

/// `raw` with the field at (`start`, `width`) replaced by the low `width` bits of `value`.
pub open spec fn with_field(raw: u64, start: u64, width: u64, value: u64) -> u64 {
    (raw & !(low_mask(width) << start)) | ((value & low_mask(width)) << start)
}

/// The bit that encodes a flag.
pub open spec fn flag_bit(value: bool) -> u64 {
    if value { 1 } else { 0 }
}

/// Whether the fields (`s1`, `w1`) and (`s2`, `w2`) share no bit.
pub open spec fn disjoint_fields(s1: u64, w1: u64, s2: u64, w2: u64) -> bool {
    s1 + w1 <= s2 || s2 + w2 <= s1
}

/// A field layout that fits in the 64-bit word with a width of 1 to 8 bits.
pub open spec fn valid_field(start: u64, width: u64) -> bool {
    1 <= width <= 8 && start + width <= 64
}


/// Reading a field back after writing it gives the written value, cut to the field's width.
pub proof fn lemma_read_after_write(raw: u64, start: u64, width: u64, value: u64)
    requires
        valid_field(start, width),
    ensures
        field_of(with_field(raw, start, width, value), start, width) == value & low_mask(width),
{
    assert(((((raw & !((((1u64 << width) - 1) as u64) << start)) | ((value & (((1u64 << width)
        - 1) as u64)) << start)) >> start) & (((1u64 << width) - 1) as u64)) == value & (((1u64
        << width) - 1) as u64)) by (bit_vector)
        requires
            1 <= width <= 8,
            start + width <= 64,
    ;
}

/// Writing a field leaves every field that shares no bit with it unchanged.
pub proof fn lemma_write_preserves_other(
    raw: u64,
    start: u64,
    width: u64,
    value: u64,
    other_start: u64,
    other_width: u64,
)
    requires
        valid_field(start, width),
        valid_field(other_start, other_width),
        disjoint_fields(start, width, other_start, other_width),
    ensures
        field_of(with_field(raw, start, width, value), other_start, other_width) == field_of(
            raw,
            other_start,
            other_width,
        ),
{
    assert(((((raw & !((((1u64 << width) - 1) as u64) << start)) | ((value & (((1u64 << width)
        - 1) as u64)) << start)) >> other_start) & (((1u64 << other_width) - 1) as u64)) == ((raw
        >> other_start) & (((1u64 << other_width) - 1) as u64))) by (bit_vector)
        requires
            1 <= width <= 8,
            start + width <= 64,
            1 <= other_width <= 8,
            other_start + other_width <= 64,
            start + width <= other_start || other_start + other_width <= start,
    ;
}

/// A second write to a field replaces the first.
pub proof fn lemma_write_write(raw: u64, start: u64, width: u64, v1: u64, v2: u64)
    requires
        valid_field(start, width),
    ensures
        with_field(with_field(raw, start, width, v1), start, width, v2) == with_field(
            raw,
            start,
            width,
            v2,
        ),
{
    assert((((raw & !((((1u64 << width) - 1) as u64) << start)) | ((v1 & (((1u64 << width) - 1)
        as u64)) << start)) & !((((1u64 << width) - 1) as u64) << start)) | ((v2 & (((1u64
        << width) - 1) as u64)) << start) == (raw & !((((1u64 << width) - 1) as u64) << start)) | ((
    v2 & (((1u64 << width) - 1) as u64)) << start)) by (bit_vector)
        requires
            1 <= width <= 8,
            start + width <= 64,
    ;
}

/// Writing back the value a field already holds changes nothing.
pub proof fn lemma_write_same_value(raw: u64, start: u64, width: u64)
    requires
        valid_field(start, width),
    ensures
        with_field(raw, start, width, field_of(raw, start, width)) == raw,
{
    assert((raw & !((((1u64 << width) - 1) as u64) << start)) | ((((raw >> start) & (((1u64
        << width) - 1) as u64)) & (((1u64 << width) - 1) as u64)) << start) == raw) by (bit_vector)
        requires
            1 <= width <= 8,
            start + width <= 64,
    ;
}

/// Every field of the zero word is zero.
pub proof fn lemma_zero_fields(start: u64, width: u64)
    requires
        valid_field(start, width),
    ensures
        field_of(0, start, width) == 0,
{
    assert(((0u64 >> start) & (((1u64 << width) - 1) as u64)) == 0) by (bit_vector);
}

pub const POS_START: u64 = 0;
pub const POS_WIDTH: u64 = 4;
pub const GENDER_START: u64 = 4;
pub const GENDER_WIDTH: u64 = 2;
pub const NUMBER_START: u64 = 6;
pub const NUMBER_WIDTH: u64 = 2;
pub const PERSON_START: u64 = 8;
pub const PERSON_WIDTH: u64 = 2;
pub const TENSE_START: u64 = 10;
pub const TENSE_WIDTH: u64 = 2;
pub const MOOD_START: u64 = 12;
pub const MOOD_WIDTH: u64 = 3;
pub const VOICE_START: u64 = 15;
pub const VOICE_WIDTH: u64 = 1;
pub const CASE_START: u64 = 16;
pub const CASE_WIDTH: u64 = 2;
pub const STATE_START: u64 = 18;
pub const STATE_WIDTH: u64 = 1;
pub const VERB_FORM_START: u64 = 19;
pub const VERB_FORM_WIDTH: u64 = 5;
pub const NOUN_TYPE_START: u64 = 24;
pub const NOUN_TYPE_WIDTH: u64 = 4;
pub const PRONOUN_TYPE_START: u64 = 28;
pub const PRONOUN_TYPE_WIDTH: u64 = 4;
pub const TRANSITIVITY_START: u64 = 32;
pub const TRANSITIVITY_WIDTH: u64 = 3;
pub const ROOT_TYPE_START: u64 = 35;
pub const ROOT_TYPE_WIDTH: u64 = 4;
pub const STRESS_PATTERN_START: u64 = 39;
pub const STRESS_PATTERN_WIDTH: u64 = 2;
pub const SYLLABLE_COUNT_START: u64 = 41;
pub const SYLLABLE_COUNT_WIDTH: u64 = 4;
pub const HAS_SHADDA_BIT: u64 = 45;
pub const HAS_MADD_BIT: u64 = 46;
pub const HAS_HAMZA_BIT: u64 = 47;

/// The 64-bit feature bitfield for morphological features.
#[derive(Debug, Clone, Copy, PartialEq, Eq, Hash, Structural)]
pub struct FeatureBitfield(u64);

impl View for FeatureBitfield {
    type V = u64;

    closed spec fn view(&self) -> u64 {
        self.0
    }
}

impl FeatureBitfield {
    /// A zeroed (all-unspecified) bitfield.
    pub fn new() -> (r: Self)
        ensures
            r@ == 0,
    {
        FeatureBitfield(0)
    }

    /// The bitfield whose raw word is `raw`.
    pub fn from_raw(raw: u64) -> (r: Self)
        ensures
            r@ == raw,
    {
        FeatureBitfield(raw)
    }

    /// The raw word.
    pub fn to_raw(&self) -> (r: u64)
        ensures
            r == self@,
    {
        self.0
    }

    /// Extract the field at (`start`, `width`).
    fn get_bits(&self, start: u64, width: u64) -> (r: u8)
        requires
            valid_field(start, width),
        ensures
            r as u64 == field_of(self@, start, width),
    {
        let raw = self.0;
        assert(1u64 << width >= 1) by (bit_vector)
            requires
                width < 64,
        ;
        let mask: u64 = (1u64 << width) - 1;
        let v = (raw >> start) & mask;
        assert(v < 256) by (bit_vector)
            requires
                v == (raw >> start) & mask,
                mask == ((1u64 << width) - 1) as u64,
                1 <= width <= 8,
        ;
        v as u8
    }

    /// Replace the field at (`start`, `width`) by the low bits of `value`.
    fn set_bits(&mut self, start: u64, width: u64, value: u8)
        requires
            valid_field(start, width),
        ensures
            final(self)@ == with_field(old(self)@, start, width, value as u64),
    {
        assert(1u64 << width >= 1) by (bit_vector)
            requires
                width < 64,
        ;
        let mask: u64 = (1u64 << width) - 1;
        self.0 = (self.0 & !(mask << start)) | ((value as u64 & mask) << start);
    }

    /// Set or clear the single bit `start`.
    fn set_bit(&mut self, start: u64, value: bool)
        requires
            start < 64,
        ensures
            final(self)@ == with_field(old(self)@, start, 1, flag_bit(value)),
    {
        let raw = self.0;
        if value {
            self.0 = raw | (1u64 << start);
            assert(raw | (1u64 << start) == (raw & !((((1u64 << 1u64) - 1) as u64) << start)) | ((1u64
                & (((1u64 << 1u64) - 1) as u64)) << start)) by (bit_vector)
                requires
                    start < 64,
            ;
        } else {
            self.0 = raw & !(1u64 << start);
            assert(raw & !(1u64 << start) == (raw & !((((1u64 << 1u64) - 1) as u64) << start)) | ((0u64
                & (((1u64 << 1u64) - 1) as u64)) << start)) by (bit_vector)
                requires
                    start < 64,
            ;
        }
    }

    /// The `pos` field.
    pub fn pos(&self) -> (r: u8)
        ensures
            r as u64 == field_of(self@, POS_START, POS_WIDTH),
    {
        self.get_bits(POS_START, POS_WIDTH)
    }

    /// The `gender` field.
    pub fn gender(&self) -> (r: u8)
        ensures
            r as u64 == field_of(self@, GENDER_START, GENDER_WIDTH),
    {
        self.get_bits(GENDER_START, GENDER_WIDTH)
    }

    /// The `number` field.
    pub fn number(&self) -> (r: u8)
        ensures
            r as u64 == field_of(self@, NUMBER_START, NUMBER_WIDTH),
    {
        self.get_bits(NUMBER_START, NUMBER_WIDTH)
    }

    /// The `person` field.
    pub fn person(&self) -> (r: u8)
        ensures
            r as u64 == field_of(self@, PERSON_START, PERSON_WIDTH),
    {
        self.get_bits(PERSON_START, PERSON_WIDTH)
    }

    /// The `tense` field.
    pub fn tense(&self) -> (r: u8)
        ensures
            r as u64 == field_of(self@, TENSE_START, TENSE_WIDTH),
    {
        self.get_bits(TENSE_START, TENSE_WIDTH)
    }

    /// The `mood` field.
    pub fn mood(&self) -> (r: u8)
        ensures
            r as u64 == field_of(self@, MOOD_START, MOOD_WIDTH),
    {
        self.get_bits(MOOD_START, MOOD_WIDTH)
    }

    /// The `voice` field.
    pub fn voice(&self) -> (r: u8)
        ensures
            r as u64 == field_of(self@, VOICE_START, VOICE_WIDTH),
    {
        self.get_bits(VOICE_START, VOICE_WIDTH)
    }

    /// The `case` field.
    pub fn case(&self) -> (r: u8)
        ensures
            r as u64 == field_of(self@, CASE_START, CASE_WIDTH),
    {
        self.get_bits(CASE_START, CASE_WIDTH)
    }

    /// The `state` field.
    pub fn state(&self) -> (r: u8)
        ensures
            r as u64 == field_of(self@, STATE_START, STATE_WIDTH),
    {
        self.get_bits(STATE_START, STATE_WIDTH)
    }

    /// The `verb_form` field.
    pub fn verb_form(&self) -> (r: u8)
        ensures
            r as u64 == field_of(self@, VERB_FORM_START, VERB_FORM_WIDTH),
    {
        self.get_bits(VERB_FORM_START, VERB_FORM_WIDTH)
    }

    /// The `noun_type` field.
    pub fn noun_type(&self) -> (r: u8)
        ensures
            r as u64 == field_of(self@, NOUN_TYPE_START, NOUN_TYPE_WIDTH),
    {
        self.get_bits(NOUN_TYPE_START, NOUN_TYPE_WIDTH)
    }

    /// The `pronoun_type` field.
    pub fn pronoun_type(&self) -> (r: u8)
        ensures
            r as u64 == field_of(self@, PRONOUN_TYPE_START, PRONOUN_TYPE_WIDTH),
    {
        self.get_bits(PRONOUN_TYPE_START, PRONOUN_TYPE_WIDTH)
    }

    /// The `transitivity` field.
    pub fn transitivity(&self) -> (r: u8)
        ensures
            r as u64 == field_of(self@, TRANSITIVITY_START, TRANSITIVITY_WIDTH),
    {
        self.get_bits(TRANSITIVITY_START, TRANSITIVITY_WIDTH)
    }

    /// The `root_type` field.
    pub fn root_type(&self) -> (r: u8)
        ensures
            r as u64 == field_of(self@, ROOT_TYPE_START, ROOT_TYPE_WIDTH),
    {
        self.get_bits(ROOT_TYPE_START, ROOT_TYPE_WIDTH)
    }

    /// The `stress_pattern` field.
    pub fn stress_pattern(&self) -> (r: u8)
        ensures
            r as u64 == field_of(self@, STRESS_PATTERN_START, STRESS_PATTERN_WIDTH),
    {
        self.get_bits(STRESS_PATTERN_START, STRESS_PATTERN_WIDTH)
    }

    /// The `syllable_count` field.
    pub fn syllable_count(&self) -> (r: u8)
        ensures
            r as u64 == field_of(self@, SYLLABLE_COUNT_START, SYLLABLE_COUNT_WIDTH),
    {
        self.get_bits(SYLLABLE_COUNT_START, SYLLABLE_COUNT_WIDTH)
    }

    /// The `has_shadda` flag.
    pub fn has_shadda(&self) -> (r: bool)
        ensures
            r == (field_of(self@, HAS_SHADDA_BIT, 1) != 0),
    {
        self.get_bits(HAS_SHADDA_BIT, 1) != 0
    }

    /// The `has_madd` flag.
    pub fn has_madd(&self) -> (r: bool)
        ensures
            r == (field_of(self@, HAS_MADD_BIT, 1) != 0),
    {
        self.get_bits(HAS_MADD_BIT, 1) != 0
    }

    /// The `has_hamza` flag.
    pub fn has_hamza(&self) -> (r: bool)
        ensures
            r == (field_of(self@, HAS_HAMZA_BIT, 1) != 0),
    {
        self.get_bits(HAS_HAMZA_BIT, 1) != 0
    }

    /// This bitfield with the `pos` field set to the low bits of `value`.
    pub fn with_pos(self, value: u8) -> (r: Self)
        ensures
            r@ == with_field(self@, POS_START, POS_WIDTH, value as u64),
    {
        let mut s = self;
        s.set_bits(POS_START, POS_WIDTH, value);
        s
    }

    /// This bitfield with the `gender` field set to the low bits of `value`.
    pub fn with_gender(self, value: u8) -> (r: Self)
        ensures
            r@ == with_field(self@, GENDER_START, GENDER_WIDTH, value as u64),
    {
        let mut s = self;
        s.set_bits(GENDER_START, GENDER_WIDTH, value);
        s
    }

    /// This bitfield with the `number` field set to the low bits of `value`.
    pub fn with_number(self, value: u8) -> (r: Self)
        ensures
            r@ == with_field(self@, NUMBER_START, NUMBER_WIDTH, value as u64),
    {
        let mut s = self;
        s.set_bits(NUMBER_START, NUMBER_WIDTH, value);
        s
    }

    /// This bitfield with the `person` field set to the low bits of `value`.
    pub fn with_person(self, value: u8) -> (r: Self)
        ensures
            r@ == with_field(self@, PERSON_START, PERSON_WIDTH, value as u64),
    {
        let mut s = self;
        s.set_bits(PERSON_START, PERSON_WIDTH, value);
        s
    }

    /// This bitfield with the `tense` field set to the low bits of `value`.
    pub fn with_tense(self, value: u8) -> (r: Self)
        ensures
            r@ == with_field(self@, TENSE_START, TENSE_WIDTH, value as u64),
    {
        let mut s = self;
        s.set_bits(TENSE_START, TENSE_WIDTH, value);
        s
    }

    /// This bitfield with the `mood` field set to the low bits of `value`.
    pub fn with_mood(self, value: u8) -> (r: Self)
        ensures
            r@ == with_field(self@, MOOD_START, MOOD_WIDTH, value as u64),
    {
        let mut s = self;
        s.set_bits(MOOD_START, MOOD_WIDTH, value);
        s
    }

    /// This bitfield with the `voice` field set to the low bits of `value`.
    pub fn with_voice(self, value: u8) -> (r: Self)
        ensures
            r@ == with_field(self@, VOICE_START, VOICE_WIDTH, value as u64),
    {
        let mut s = self;
        s.set_bits(VOICE_START, VOICE_WIDTH, value);
        s
    }

    /// This bitfield with the `case` field set to the low bits of `value`.
    pub fn with_case(self, value: u8) -> (r: Self)
        ensures
            r@ == with_field(self@, CASE_START, CASE_WIDTH, value as u64),
    {
        let mut s = self;
        s.set_bits(CASE_START, CASE_WIDTH, value);
        s
    }

    /// This bitfield with the `state` field set to the low bits of `value`.
    pub fn with_state(self, value: u8) -> (r: Self)
        ensures
            r@ == with_field(self@, STATE_START, STATE_WIDTH, value as u64),
    {
        let mut s = self;
        s.set_bits(STATE_START, STATE_WIDTH, value);
        s
    }

    /// This bitfield with the `verb_form` field set to the low bits of `value`.
    pub fn with_verb_form(self, value: u8) -> (r: Self)
        ensures
            r@ == with_field(self@, VERB_FORM_START, VERB_FORM_WIDTH, value as u64),
    {
        let mut s = self;
        s.set_bits(VERB_FORM_START, VERB_FORM_WIDTH, value);
        s
    }

    /// This bitfield with the `noun_type` field set to the low bits of `value`.
    pub fn with_noun_type(self, value: u8) -> (r: Self)
        ensures
            r@ == with_field(self@, NOUN_TYPE_START, NOUN_TYPE_WIDTH, value as u64),
    {
        let mut s = self;
        s.set_bits(NOUN_TYPE_START, NOUN_TYPE_WIDTH, value);
        s
    }

    /// This bitfield with the `pronoun_type` field set to the low bits of `value`.
    pub fn with_pronoun_type(self, value: u8) -> (r: Self)
        ensures
            r@ == with_field(self@, PRONOUN_TYPE_START, PRONOUN_TYPE_WIDTH, value as u64),
    {
        let mut s = self;
        s.set_bits(PRONOUN_TYPE_START, PRONOUN_TYPE_WIDTH, value);
        s
    }

    /// This bitfield with the `transitivity` field set to the low bits of `value`.
    pub fn with_transitivity(self, value: u8) -> (r: Self)
        ensures
            r@ == with_field(self@, TRANSITIVITY_START, TRANSITIVITY_WIDTH, value as u64),
    {
        let mut s = self;
        s.set_bits(TRANSITIVITY_START, TRANSITIVITY_WIDTH, value);
        s
    }

    /// This bitfield with the `root_type` field set to the low bits of `value`.
    pub fn with_root_type(self, value: u8) -> (r: Self)
        ensures
            r@ == with_field(self@, ROOT_TYPE_START, ROOT_TYPE_WIDTH, value as u64),
    {
        let mut s = self;
        s.set_bits(ROOT_TYPE_START, ROOT_TYPE_WIDTH, value);
        s
    }

    /// This bitfield with the `stress_pattern` field set to the low bits of `value`.
    pub fn with_stress_pattern(self, value: u8) -> (r: Self)
        ensures
            r@ == with_field(self@, STRESS_PATTERN_START, STRESS_PATTERN_WIDTH, value as u64),
    {
        let mut s = self;
        s.set_bits(STRESS_PATTERN_START, STRESS_PATTERN_WIDTH, value);
        s
    }

    /// This bitfield with the `syllable_count` field set to the low bits of `value`.
    pub fn with_syllable_count(self, value: u8) -> (r: Self)
        ensures
            r@ == with_field(self@, SYLLABLE_COUNT_START, SYLLABLE_COUNT_WIDTH, value as u64),
    {
        let mut s = self;
        s.set_bits(SYLLABLE_COUNT_START, SYLLABLE_COUNT_WIDTH, value);
        s
    }

    /// This bitfield with the `has_shadda` flag set to `value`.
    pub fn with_has_shadda(self, value: bool) -> (r: Self)
        ensures
            r@ == with_field(self@, HAS_SHADDA_BIT, 1, flag_bit(value)),
    {
        let mut s = self;
        s.set_bit(HAS_SHADDA_BIT, value);
        s
    }

    /// This bitfield with the `has_madd` flag set to `value`.
    pub fn with_has_madd(self, value: bool) -> (r: Self)
        ensures
            r@ == with_field(self@, HAS_MADD_BIT, 1, flag_bit(value)),
    {
        let mut s = self;
        s.set_bit(HAS_MADD_BIT, value);
        s
    }

    /// This bitfield with the `has_hamza` flag set to `value`.
    pub fn with_has_hamza(self, value: bool) -> (r: Self)
        ensures
            r@ == with_field(self@, HAS_HAMZA_BIT, 1, flag_bit(value)),
    {
        let mut s = self;
        s.set_bit(HAS_HAMZA_BIT, value);
        s
    }
}

impl Default for FeatureBitfield {
    fn default() -> (r: Self)
        ensures
            r@ == 0,
    {
        Self::new()
    }
}

/// The (start, width) layout of every field and flag, in table order.
pub open spec fn feature_layout() -> Seq<(u64, u64)> {
    seq![
        (POS_START, POS_WIDTH), (GENDER_START, GENDER_WIDTH), (NUMBER_START, NUMBER_WIDTH),
        (PERSON_START, PERSON_WIDTH), (TENSE_START, TENSE_WIDTH), (MOOD_START, MOOD_WIDTH),
        (VOICE_START, VOICE_WIDTH), (CASE_START, CASE_WIDTH), (STATE_START, STATE_WIDTH),
        (VERB_FORM_START, VERB_FORM_WIDTH), (NOUN_TYPE_START, NOUN_TYPE_WIDTH),
        (PRONOUN_TYPE_START, PRONOUN_TYPE_WIDTH), (TRANSITIVITY_START, TRANSITIVITY_WIDTH),
        (ROOT_TYPE_START, ROOT_TYPE_WIDTH), (STRESS_PATTERN_START, STRESS_PATTERN_WIDTH),
        (SYLLABLE_COUNT_START, SYLLABLE_COUNT_WIDTH), (HAS_SHADDA_BIT, 1u64), (HAS_MADD_BIT, 1u64),
        (HAS_HAMZA_BIT, 1u64),
    ]
}

/// The layout fits in the word, no two fields share a bit, and bits 48–63 stay reserved.
pub proof fn lemma_layout_is_disjoint()
    ensures
        feature_layout().len() == 19,
        forall|i: int|
            0 <= i < 19 ==> valid_field(#[trigger] feature_layout()[i].0, feature_layout()[i].1)
                && feature_layout()[i].0 + feature_layout()[i].1 <= 48,
        forall|i: int, j: int|
            0 <= i < 19 && 0 <= j < 19 && i != j ==> disjoint_fields(
                #[trigger] feature_layout()[i].0,
                feature_layout()[i].1,
                #[trigger] feature_layout()[j].0,
                feature_layout()[j].1,
            ),
{
    assert forall|i: int| 0 <= i < 19 implies feature_layout()[i].0 + feature_layout()[i].1 <= (
    if i + 1 < 19 {
        feature_layout()[i + 1].0
    } else {
        48
    }) && valid_field(feature_layout()[i].0, feature_layout()[i].1) by {}
}
/// A single morphological feature with its value.
#[derive(Debug, Clone)]
pub struct NamedFeature {
    /// Feature name (e.g., "gender", "number", "tense")
    pub name: String,
    /// Feature value (e.g., "masculine", "plural", "past")
    pub value: String,
    /// Feature category
    pub category: FeatureCategory,
    /// Confidence in this feature assignment, in millionths
    pub confidence: u32,
    /// Source of this feature (KB entry ID or rule ID)
    pub source: String,
}

/// Feature category classification.
#[derive(Debug, Clone, Copy, PartialEq, Eq, Structural)]
pub enum FeatureCategory {
    /// Part of Speech
    Pos,
    /// Inflectional features (gender, number, person, tense, etc.)
    Inflectional,
    /// Derivational features (verb_form, noun_type, etc.)
    Derivational,
    /// Prosodic features (stress_pattern, syllable_count)
    Prosodic,
    /// Orthographic features (has_shadda, has_madd, has_hamza)
    Orthographic,
}

/// The lower-case name of a feature category.
pub open spec fn category_name(c: FeatureCategory) -> Seq<char> {
    match c {
        FeatureCategory::Pos => "pos"@,
        FeatureCategory::Inflectional => "inflectional"@,
        FeatureCategory::Derivational => "derivational"@,
        FeatureCategory::Prosodic => "prosodic"@,
        FeatureCategory::Orthographic => "orthographic"@,
    }
}

impl FeatureCategory {
    /// The lower-case name of the category.
    pub fn name(&self) -> (r: &'static str)
        ensures
            r@ == category_name(*self),
    {
        match self {
            FeatureCategory::Pos => "pos",
            FeatureCategory::Inflectional => "inflectional",
            FeatureCategory::Derivational => "derivational",
            FeatureCategory::Prosodic => "prosodic",
            FeatureCategory::Orthographic => "orthographic",
        }
    }
}

/// Full feature definition entry.
#[derive(Debug, Clone)]
pub struct FeatureDefinition {
    /// Unique feature identifier (e.g., "KB-0007:gender")
    pub id: String,
    /// Canonical feature name (e.g., "gender")
    pub feature_name: String,
    /// Feature category
    pub category: FeatureCategory,
    /// Starting bit position in the 64-bit field
    pub bitfield_position: u8,
    /// Number of bits used
    pub bitfield_width: u8,
    /// All valid values for this feature
    pub values: Vec<FeatureValue>,
    /// Default value when feature is unspecified
    pub default_value: Option<String>,
    /// Description of what this feature encodes
    pub description: String,
    /// Which POS types this feature applies to
    pub applies_to_pos: Vec<String>,
}

/// A single valid value for a morphological feature.
#[derive(Debug, Clone)]
pub struct FeatureValue {
    /// Value name (e.g., "masculine")
    pub name: String,
    /// Numeric code in the bitfield
    pub code: u8,
    /// Human-readable label
    pub label: String,
    /// Optional description of this value
    pub description: Option<String>,
    /// Arabic grammatical term (if applicable)
    pub arabic_term: Option<String>,
}

/// Feature agreement rule.
#[derive(Debug, Clone)]
pub struct AgreementRule {
    pub id: String,
    pub rule_type: AgreementRuleType,
    pub description: String,
    pub source_feature: String,
    pub target_feature: String,
    pub constraint: String,
    pub exceptions: Option<String>,
    pub applies_to: Vec<String>,
}

/// Type of agreement rule.
#[derive(Debug, Clone, Copy, PartialEq, Eq, Structural)]
pub enum AgreementRuleType {
    SubjectVerb,
    NounAdjective,
    Government,
    MoodGovernment,
}

/// Feature inference rule.
#[derive(Debug, Clone)]
pub struct InferenceRule {
    pub id: String,
    pub input_feature: String,
    pub input_value: String,
    pub inferred_feature: String,
    pub inferred_value: String,
    pub priority: u32,
    pub condition: Option<String>,
    pub notes: Option<String>,
}

/// Feature constraint.
#[derive(Debug, Clone)]
pub struct FeatureConstraint {
    pub id: String,
    pub constraint_type: ConstraintType,
    pub description: String,
    pub features: Vec<String>,
    pub condition: Option<String>,
    pub allowed_combinations: Option<Vec<Vec<String>>>,
}

/// Type of feature constraint.
#[derive(Debug, Clone, Copy, PartialEq, Eq, Structural)]
pub enum ConstraintType {
    ValidCombination,
    MutualExclusion,
    Dependency,
    ConditionalRequired,
}

} // verus!

