use vstd::prelude::*;

verus! {

/// One style option of a message box. The options fall into families
/// (button set, icon, default button, modality) whose members share bits,
/// plus independent modifiers; a style is the bitwise OR of its options.
#[allow(non_camel_case_types)]
#[derive(Debug, Clone, Copy, PartialEq, Eq, Structural)]
pub enum MessageBoxType {
    OK_CANCEL,
    ABORT_RETRY_IGNORE,
    YES_NO_CANCEL,
    YES_NO,
    RETRY_CANCEL,
    CANCEL_TRY_CONTINUE,
    HELP,
    ICON_ERROR,
    ICON_QUESTION,
    ICON_EXCLAMATION,
    ICON_INFORMATION,
    DEF_BUTTON2,
    DEF_BUTTON3,
    DEF_BUTTON4,
    APPLICATION_MODAL,
    SYSTEM_MODAL,
    TASK_MODAL,
    DEFAULT_DESKTOP_ONLY,
    TEXT_RTL,
    RTL_READING,
    SET_FOREGROUND,
    TOPMOST,
    SERVICE_NOTIFICATION,
}

impl MessageBoxType {
    /// The bit pattern that the host assigns to this option.
    pub open spec fn spec_bits(self) -> usize {
        match self {
            MessageBoxType::OK_CANCEL => 0x1,
            MessageBoxType::ABORT_RETRY_IGNORE => 0x2,
            MessageBoxType::YES_NO_CANCEL => 0x3,
            MessageBoxType::YES_NO => 0x4,
            MessageBoxType::RETRY_CANCEL => 0x5,
            MessageBoxType::CANCEL_TRY_CONTINUE => 0x6,
            MessageBoxType::HELP => 0x4000,
            MessageBoxType::ICON_ERROR => 0x10,
            MessageBoxType::ICON_QUESTION => 0x20,
            MessageBoxType::ICON_EXCLAMATION => 0x30,
            MessageBoxType::ICON_INFORMATION => 0x40,
            MessageBoxType::DEF_BUTTON2 => 0x100,
            MessageBoxType::DEF_BUTTON3 => 0x200,
            MessageBoxType::DEF_BUTTON4 => 0x300,
            MessageBoxType::APPLICATION_MODAL => 0x0,
            MessageBoxType::SYSTEM_MODAL => 0x1000,
            MessageBoxType::TASK_MODAL => 0x2000,
            MessageBoxType::DEFAULT_DESKTOP_ONLY => 0x20000,
            MessageBoxType::TEXT_RTL => 0x80000,
            MessageBoxType::RTL_READING => 0x100000,
            MessageBoxType::SET_FOREGROUND => 0x10000,
            MessageBoxType::TOPMOST => 0x40000,
            MessageBoxType::SERVICE_NOTIFICATION => 0x200000,
        }
    }

    /// The bit pattern of this option.
    #[verifier::when_used_as_spec(spec_bits)]
    pub fn bits(self) -> (r: usize)
        ensures
            r == self.spec_bits(),
    {
        match self {
            MessageBoxType::OK_CANCEL => 0x1,
            MessageBoxType::ABORT_RETRY_IGNORE => 0x2,
            MessageBoxType::YES_NO_CANCEL => 0x3,
            MessageBoxType::YES_NO => 0x4,
            MessageBoxType::RETRY_CANCEL => 0x5,
            MessageBoxType::CANCEL_TRY_CONTINUE => 0x6,
            MessageBoxType::HELP => 0x4000,
            MessageBoxType::ICON_ERROR => 0x10,
            MessageBoxType::ICON_QUESTION => 0x20,
            MessageBoxType::ICON_EXCLAMATION => 0x30,
            MessageBoxType::ICON_INFORMATION => 0x40,
            MessageBoxType::DEF_BUTTON2 => 0x100,
            MessageBoxType::DEF_BUTTON3 => 0x200,
            MessageBoxType::DEF_BUTTON4 => 0x300,
            MessageBoxType::APPLICATION_MODAL => 0x0,
            MessageBoxType::SYSTEM_MODAL => 0x1000,
            MessageBoxType::TASK_MODAL => 0x2000,
            MessageBoxType::DEFAULT_DESKTOP_ONLY => 0x20000,
            MessageBoxType::TEXT_RTL => 0x80000,
            MessageBoxType::RTL_READING => 0x100000,
            MessageBoxType::SET_FOREGROUND => 0x10000,
            MessageBoxType::TOPMOST => 0x40000,
            MessageBoxType::SERVICE_NOTIFICATION => 0x200000,
        }
    }
}

/// The style word of a list of options: the bitwise OR of their bits,
/// starting from zero and taken from the first option to the last.
pub open spec fn style_of(types: Seq<MessageBoxType>) -> usize
    decreases types.len(),
{
    if types.len() == 0 {
        0
    } else {
        style_of(types.drop_last()) | types.last().spec_bits()
    }
}

/// Combines a list of options into one style word.
pub fn combine_styles(types: &[MessageBoxType]) -> (r: usize)
    ensures
        r == style_of(types@),
{
    let mut acc: usize = 0;
    let mut i: usize = 0;
    while i < types.len()
        invariant
            i <= types@.len(),
            acc == style_of(types@.subrange(0, i as int)),
        decreases types@.len() - i,
    {
        proof {
            assert(types@.subrange(0, i + 1).drop_last() =~= types@.subrange(0, i as int));
        }
        acc = acc | types[i].bits();
        i = i + 1;
    }
    proof {
        assert(types@.subrange(0, i as int) =~= types@);
    }
    acc
}

proof fn lemma_or_assoc(a: usize, b: usize, c: usize)
    ensures
        (a | b) | c == a | (b | c),
{
    assert((a | b) | c == a | (b | c)) by (bit_vector);
}

/// The style of two lists joined is the OR of their styles.
pub proof fn lemma_style_of_concat(a: Seq<MessageBoxType>, b: Seq<MessageBoxType>)
    ensures
        style_of(a + b) == style_of(a) | style_of(b),
    decreases b.len(),
{
    if b.len() == 0 {
        assert(a + b =~= a);
        let x = style_of(a);
        assert(x | 0 == x) by (bit_vector);
    } else {
        assert((a + b).drop_last() =~= a + b.drop_last());
        lemma_style_of_concat(a, b.drop_last());
        lemma_or_assoc(style_of(a), style_of(b.drop_last()), b.last().spec_bits());
    }
}

/// The order in which options are given does not change the style: the
/// options of two lists give one style whichever list comes first.
pub proof fn law_style_order_independent(a: Seq<MessageBoxType>, b: Seq<MessageBoxType>)
    ensures
        style_of(a + b) == style_of(b + a),
{
    lemma_style_of_concat(a, b);
    lemma_style_of_concat(b, a);
    let x = style_of(a);
    let y = style_of(b);
    assert(x | y == y | x) by (bit_vector);
}

/// An option that is already in a list adds nothing to its style when it is
/// given again: duplicates are harmless.
pub proof fn law_style_duplicate_harmless(types: Seq<MessageBoxType>, t: MessageBoxType)
    requires
        types.contains(t),
    ensures
        style_of(types.push(t)) == style_of(types),
{
    let i = choose|i: int| 0 <= i < types.len() && types[i] == t;
    let head = types.subrange(0, i + 1);
    let tail = types.subrange(i + 1, types.len() as int);
    assert(head + tail =~= types);
    assert(head.drop_last() + seq![t] =~= head);
    lemma_style_of_concat(head, tail);
    lemma_style_of_concat(head.drop_last(), seq![t]);
    assert(seq![t].drop_last() =~= Seq::<MessageBoxType>::empty());
    assert(types.push(t).drop_last() =~= types);
    let p = style_of(head.drop_last());
    let q = style_of(tail);
    let b = t.spec_bits();
    assert(0usize | b == b) by (bit_vector);
    assert(((p | b) | q) | b == (p | b) | q) by (bit_vector);
}

} // verus!
