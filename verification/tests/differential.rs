use hoverable::RefinementCascade;
use zed_refineable::{Cascade, IsEmpty, Refineable};

#[derive(Clone, Debug, Default, PartialEq)]
struct Tint {
    color: Option<u32>,
}

impl IsEmpty for Tint {
    fn is_empty(&self) -> bool {
        self.color.is_none()
    }
}

impl Refineable for Tint {
    type Refinement = Tint;

    fn refine(&mut self, refinement: &Tint) {
        if let Some(color) = refinement.color {
            self.color = Some(color);
        }
    }

    fn refined(mut self, refinement: Tint) -> Tint {
        self.refine(&refinement);
        self
    }

    fn is_superset_of(&self, refinement: &Tint) -> bool {
        refinement.color.is_none() || self.color == refinement.color
    }

    fn subtract(&self, refinement: &Tint) -> Tint {
        if self.color == refinement.color {
            Tint { color: None }
        } else {
            self.clone()
        }
    }
}

fn tint(color: Option<u32>) -> Option<Tint> {
    Some(Tint { color })
}

#[test]
fn cascade_agrees_with_refineable_on_a_fresh_cascade() {
    let ours: RefinementCascade<Option<u32>> = RefinementCascade::new();
    let theirs: Cascade<Tint> = Cascade::default();
    assert_eq!(ours.merged(), theirs.merged().color);
}

#[test]
fn cascade_agrees_with_refineable_step_by_step() {
    let mut ours: RefinementCascade<Option<u32>> = RefinementCascade::new();
    let mut theirs: Cascade<Tint> = Cascade::default();

    *ours.base() = Some(1);
    theirs.base().color = Some(1);
    assert_eq!(ours.merged(), theirs.merged().color);

    let our_low = ours.reserve();
    let their_low = theirs.reserve();
    let our_high = ours.reserve();
    let their_high = theirs.reserve();
    assert_eq!(ours.merged(), theirs.merged().color);

    let steps: [(bool, Option<Option<u32>>); 9] = [
        (true, Some(Some(2))),
        (false, Some(Some(3))),
        (true, None),
        (false, Some(None)),
        (true, Some(Some(4))),
        (false, None),
        (true, Some(None)),
        (true, None),
        (false, Some(Some(5))),
    ];
    for (high, value) in steps {
        if high {
            ours.set(our_high, value);
            theirs.set(their_high, value.and_then(tint));
        } else {
            ours.set(our_low, value);
            theirs.set(their_low, value.and_then(tint));
        }
        if value == Some(None) {
            // A slot that holds a refinement without an opinion.
            if high {
                theirs.set(their_high, tint(None));
            } else {
                theirs.set(their_low, tint(None));
            }
        }
        assert_eq!(ours.merged(), theirs.merged().color);
    }
    assert_eq!(ours.merged(), Some(5));
}

#[test]
fn cascade_agrees_with_refineable_on_every_filling_of_three_slots() {
    let choices: [Option<Option<u32>>; 3] = [None, Some(None), Some(Some(0))];
    for base in [None, Some(9u32)] {
        for a in 0..3 {
            for b in 0..3 {
                for c in 0..3 {
                    let mut ours: RefinementCascade<Option<u32>> = RefinementCascade::new();
                    let mut theirs: Cascade<Tint> = Cascade::default();
                    *ours.base() = base;
                    theirs.base().color = base;
                    for (n, pick) in [a, b, c].into_iter().enumerate() {
                        let our_slot = ours.reserve();
                        let their_slot = theirs.reserve();
                        assert_eq!(our_slot.position(), n + 1);
                        let value = choices[pick].map(|v| v.map(|_| 10 + n as u32));
                        ours.set(our_slot, value);
                        theirs.set(their_slot, value.map(|color| Tint { color }));
                        assert_eq!(*ours.get(our_slot), value);
                    }
                    assert_eq!(ours.merged(), theirs.merged().color);
                }
            }
        }
    }
}

#[derive(Clone, Debug, Default, PartialEq)]
struct Label {
    color: Option<u32>,
    size: Option<u8>,
}

impl IsEmpty for Label {
    fn is_empty(&self) -> bool {
        self.color.is_none() && self.size.is_none()
    }
}

impl Refineable for Label {
    type Refinement = Label;

    fn refine(&mut self, refinement: &Label) {
        if let Some(color) = refinement.color {
            self.color = Some(color);
        }
        if let Some(size) = refinement.size {
            self.size = Some(size);
        }
    }

    fn refined(mut self, refinement: Label) -> Label {
        self.refine(&refinement);
        self
    }

    fn is_superset_of(&self, refinement: &Label) -> bool {
        (refinement.color.is_none() || self.color == refinement.color)
            && (refinement.size.is_none() || self.size == refinement.size)
    }

    fn subtract(&self, refinement: &Label) -> Label {
        Label {
            color: if self.color == refinement.color { None } else { self.color },
            size: if self.size == refinement.size { None } else { self.size },
        }
    }
}

#[test]
fn cascade_of_pairs_agrees_with_refineable() {
    let parts: [(Option<u32>, Option<u8>); 4] =
        [(None, None), (Some(1), None), (None, Some(2)), (Some(3), Some(4))];
    for base in parts {
        for low in 0..5 {
            for high in 0..5 {
                let mut ours: RefinementCascade<(Option<u32>, Option<u8>)> =
                    RefinementCascade::new();
                let mut theirs: Cascade<Label> = Cascade::default();
                *ours.base() = base;
                *theirs.base() = Label { color: base.0, size: base.1 };
                for pick in [low, high] {
                    let our_slot = ours.reserve();
                    let their_slot = theirs.reserve();
                    let value = if pick == 4 { None } else { Some(parts[pick]) };
                    ours.set(our_slot, value);
                    theirs.set(their_slot, value.map(|(color, size)| Label { color, size }));
                }
                let merged = theirs.merged();
                assert_eq!(ours.merged(), (merged.color, merged.size));
            }
        }
    }
}
