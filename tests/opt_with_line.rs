use provenance::{OptWithLine, Span, Spanned};

#[test]
fn empty_slot_reads_none() {
    let slot: OptWithLine<u32> = OptWithLine::default();
    assert!(slot.get().is_none());
    assert!(slot.is_none());
    assert_eq!(slot.into_inner(), None);
}

#[test]
fn new_slot_holds_pair() {
    let slot = OptWithLine::new("x", Span::new(1, 2));
    assert_eq!(
        *slot.get(),
        Some(Spanned { content: "x", span: Span::new(1, 2) })
    );
}

#[test]
fn set_on_empty_slot_takes_value() {
    let mut slot = OptWithLine::default();
    let rejected = slot.set(10u64, Span::new(3, 5));
    assert_eq!(rejected, None);
    assert_eq!(*slot, Some(Spanned::new(10u64, Span::new(3, 5))));
}

#[test]
fn set_on_occupied_slot_hands_back_new_pair() {
    let mut slot = OptWithLine::new(1i32, Span::new(0, 1));
    let rejected = slot.set(2, Span::new(5, 6));
    assert_eq!(rejected, Some(Spanned::new(2, Span::new(5, 6))));
    assert_eq!(*slot.get(), Some(Spanned::new(1, Span::new(0, 1))));
}

#[test]
fn repeated_rejected_sets_keep_first_pair() {
    let mut slot = OptWithLine::new(0usize, Span::new(0, 1));
    for n in 1..6usize {
        let rejected = slot.set(n, Span::new(n, n + 1));
        assert_eq!(rejected, Some(Spanned::new(n, Span::new(n, n + 1))));
        assert_eq!(*slot, Some(Spanned::new(0usize, Span::new(0, 1))));
    }
    assert_eq!(slot.into_inner(), Some(Spanned::new(0usize, Span::new(0, 1))));
}

#[test]
fn first_set_wins_then_second_is_rejected() {
    let span1 = Span::new(0, 3);
    let span2 = Span::new(10, 13);
    let mut slot: OptWithLine<&str> = OptWithLine::default();
    assert_eq!(slot.set("a", span1), None);
    assert_eq!(*slot, Some(Spanned::new("a", span1)));
    assert_eq!(slot.set("b", span2), Some(Spanned::new("b", span2)));
    assert_eq!(*slot, Some(Spanned::new("a", span1)));
    assert_eq!(slot.into_inner(), Some(Spanned::new("a", span1)));
}

#[test]
fn from_spanned_is_occupied() {
    let slot = OptWithLine::from(Spanned::new('q', Span::new(2, 3)));
    assert_eq!(slot.into_inner(), Some(Spanned::new('q', Span::new(2, 3))));
}

#[test]
fn from_option_keeps_contents() {
    let empty: OptWithLine<u8> = OptWithLine::from(None);
    assert_eq!(empty.into_inner(), None);
    let full: OptWithLine<u8> = Some(Spanned::new(9u8, Span::new(4, 4))).into();
    assert_eq!(full.into_inner(), Some(Spanned::new(9u8, Span::new(4, 4))));
}

#[test]
fn slot_from_option_rejects_set() {
    let mut slot: OptWithLine<String> =
        OptWithLine::from(Some(Spanned::new(String::from("old"), Span::new(0, 3))));
    let rejected = slot.set(String::from("new"), Span::new(8, 11));
    assert_eq!(rejected, Some(Spanned::new(String::from("new"), Span::new(8, 11))));
    assert_eq!(slot.get().as_ref().map(|s| s.content.as_str()), Some("old"));
}
