use vstd::prelude::*;

verus! {

/// A key as hotkey capture sees it: one of the four modifiers, or any
/// other key by its display name.
#[derive(Debug)]
pub enum Key {
    Control,
    Shift,
    Alt,
    Command,
    Other(String),
}

/// Why a capture produced no combination.
#[derive(Clone, Copy, Debug, PartialEq, Eq, Structural)]
pub enum CaptureError {
    /// No key was observed during the gesture.
    EmptyCapture,
}

/// The keys gathered during one gesture: which modifiers were seen, and the
/// first other key seen. Keys are only ever added.
#[derive(Debug)]
pub struct ComboKeys {
    pub control: bool,
    pub shift: bool,
    pub alt: bool,
    pub command: bool,
    pub main: Option<String>,
}

/// The display names of the four modifiers.
pub open spec fn is_modifier_name(name: Seq<char>) -> bool {
    name == "Control"@ || name == "Shift"@ || name == "Alt"@ || name == "Command"@
}

/// Whether two texts hold the same characters.
fn same_text(a: &str, b: &str) -> (r: bool)
    ensures
        r == (a@ == b@),
{
    let n = a.unicode_len();
    if n != b.unicode_len() {
        return false;
    }
    let mut i: usize = 0;
    while i < n
        invariant
            n == a@.len(),
            n == b@.len(),
            i <= n,
            forall|j: int| 0 <= j < i ==> a@[j] == b@[j],
        decreases n - i,
    {
        if a.get_char(i) != b.get_char(i) {
            return false;
        }
        i = i + 1;
    }
    assert(a@ =~= b@);
    true
}

/// Parts joined by `+`.
pub open spec fn join_plus(parts: Seq<Seq<char>>) -> Seq<char>
    decreases parts.len(),
{
    if parts.len() == 0 {
        Seq::empty()
    } else if parts.len() == 1 {
        parts[0]
    } else {
        join_plus(parts.drop_last()) + seq!['+'] + parts.last()
    }
}

proof fn lemma_join_push(parts: Seq<Seq<char>>, p: Seq<char>)
    ensures
        join_plus(parts.push(p)) == (if parts.len() == 0 {
            p
        } else {
            join_plus(parts) + seq!['+'] + p
        }),
{
    assert(parts.push(p).drop_last() =~= parts);
}

proof fn lemma_with_key_wf(k: ComboKeys, key: Key)
    requires
        k.wf(),
    ensures
        k.with_key(key).wf(),
{
}

proof fn lemma_with_keys_wf(k: ComboKeys, keys: Seq<Key>)
    requires
        k.wf(),
    ensures
        k.with_keys(keys).wf(),
    decreases keys.len(),
{
    if keys.len() > 0 {
        lemma_with_keys_wf(k, keys.drop_last());
        lemma_with_key_wf(k.with_keys(keys.drop_last()), keys.last());
    }
}

proof fn lemma_join_nonempty(parts: Seq<Seq<char>>)
    requires
        parts.len() > 0,
        parts.last().len() > 0,
    ensures
        join_plus(parts).len() > 0,
{
}

proof fn lemma_modifier_names_differ()
    ensures
        "Control"@.len() > 0,
        "Shift"@.len() > 0,
        "Alt"@.len() > 0,
        "Command"@.len() > 0,
        "Control"@ != "Shift"@,
        "Control"@ != "Alt"@,
        "Control"@ != "Command"@,
        "Shift"@ != "Alt"@,
        "Shift"@ != "Command"@,
        "Alt"@ != "Command"@,
{
    reveal_strlit("Control");
    reveal_strlit("Shift");
    reveal_strlit("Alt");
    reveal_strlit("Command");
    assert("Control"@[2] != "Command"@[2]);
}

/// In a well-formed set every display part is non-empty and no part occurs
/// twice, so the combination text names each key once.
pub proof fn combo_parts_are_distinct_and_nonempty(k: ComboKeys)
    requires
        k.wf(),
    ensures
        forall|i: int| 0 <= i < k.parts().len() ==> (#[trigger] k.parts()[i]).len() > 0,
        forall|i: int, j: int| 0 <= i < j < k.parts().len() ==> k.parts()[i] != k.parts()[j],
{
    lemma_modifier_names_differ();
    let p0 = Seq::<Seq<char>>::empty();
    let p1 = if k.control { p0.push("Control"@) } else { p0 };
    let p2 = if k.shift { p1.push("Shift"@) } else { p1 };
    let p3 = if k.alt { p2.push("Alt"@) } else { p2 };
    let p4 = if k.command { p3.push("Command"@) } else { p3 };
    assert forall|i: int| 0 <= i < p4.len() implies is_modifier_name(#[trigger] p4[i]) && p4[i].len() > 0 by {
        if k.command && i == p4.len() - 1 {
        } else if k.alt && i == p3.len() - 1 {
        } else if k.shift && i == p2.len() - 1 {
        } else {
        }
    }
    assert forall|i: int, j: int| 0 <= i < j < p4.len() implies p4[i] != p4[j] by {
        if k.command && j == p4.len() - 1 {
            assert(p4[j] == "Command"@);
        } else if k.alt && j == p3.len() - 1 {
            assert(p4[j] == "Alt"@);
        } else if k.shift && j == p2.len() - 1 {
            assert(p4[j] == "Shift"@);
        } else {
        }
    }
}

impl ComboKeys {
    pub open spec fn is_empty(self) -> bool {
        !self.control && !self.shift && !self.alt && !self.command && self.main is None
    }

    /// The display parts in their fixed order: Control, Shift, Alt, Command,
    /// then the other key.
    pub open spec fn parts(self) -> Seq<Seq<char>> {
        let p0 = Seq::<Seq<char>>::empty();
        let p1 = if self.control { p0.push("Control"@) } else { p0 };
        let p2 = if self.shift { p1.push("Shift"@) } else { p1 };
        let p3 = if self.alt { p2.push("Alt"@) } else { p2 };
        let p4 = if self.command { p3.push("Command"@) } else { p3 };
        match self.main {
            Some(name) => p4.push(name@),
            None => p4,
        }
    }

    /// Every gathered name is a real key: the other key, if any, has a
    /// non-empty name that is not a modifier's.
    pub open spec fn wf(self) -> bool {
        match self.main {
            Some(name) => name@.len() > 0 && !is_modifier_name(name@),
            None => true,
        }
    }

    /// The set after one more observed key. A key with an empty name is
    /// ignored, and one named like a modifier counts as that modifier.
    pub open spec fn with_key(self, key: Key) -> ComboKeys {
        match key {
            Key::Control => ComboKeys { control: true, ..self },
            Key::Shift => ComboKeys { shift: true, ..self },
            Key::Alt => ComboKeys { alt: true, ..self },
            Key::Command => ComboKeys { command: true, ..self },
            Key::Other(name) => if name@.len() == 0 {
                self
            } else if name@ == "Control"@ {
                ComboKeys { control: true, ..self }
            } else if name@ == "Shift"@ {
                ComboKeys { shift: true, ..self }
            } else if name@ == "Alt"@ {
                ComboKeys { alt: true, ..self }
            } else if name@ == "Command"@ {
                ComboKeys { command: true, ..self }
            } else if self.main is None {
                ComboKeys { main: Some(name), ..self }
            } else {
                self
            },
        }
    }

    /// The set after the keys of one poll, in order.
    pub open spec fn with_keys(self, keys: Seq<Key>) -> ComboKeys
        decreases keys.len(),
    {
        if keys.len() == 0 {
            self
        } else {
            self.with_keys(keys.drop_last()).with_key(keys.last())
        }
    }

    pub fn new() -> (r: ComboKeys)
        ensures
            r.is_empty(),
            r.wf(),
    {
        ComboKeys { control: false, shift: false, alt: false, command: false, main: None }
    }

    pub fn add(&mut self, key: &Key)
        ensures
            *final(self) == old(self).with_key(*key),
    {
        match key {
            Key::Control => { self.control = true; },
            Key::Shift => { self.shift = true; },
            Key::Alt => { self.alt = true; },
            Key::Command => { self.command = true; },
            Key::Other(name) => {
                let text = name.as_str();
                if text.is_empty() {
                } else if same_text(text, "Control") {
                    self.control = true;
                } else if same_text(text, "Shift") {
                    self.shift = true;
                } else if same_text(text, "Alt") {
                    self.alt = true;
                } else if same_text(text, "Command") {
                    self.command = true;
                } else if self.main.is_none() {
                    self.main = Some(name.clone());
                }
            },
        }
    }

    pub fn add_all(&mut self, keys: &Vec<Key>)
        ensures
            *final(self) == old(self).with_keys(keys@),
    {
        let ghost start = *self;
        let mut i: usize = 0;
        while i < keys.len()
            invariant
                i <= keys@.len(),
                *self == start.with_keys(keys@.take(i as int)),
            decreases keys@.len() - i,
        {
            self.add(&keys[i]);
            proof {
                assert(keys@.take(i as int + 1).drop_last() =~= keys@.take(i as int));
            }
            i = i + 1;
        }
        proof {
            assert(keys@.take(i as int) =~= keys@);
        }
    }

    /// The combination's display text: its parts joined by `+`, or
    /// `EmptyCapture` when no key was gathered.
    pub fn combo_string(&self) -> (r: Result<String, CaptureError>)
        ensures
            self.is_empty() <==> r == Err::<String, CaptureError>(CaptureError::EmptyCapture),
            !self.is_empty() ==> r is Ok,
            r is Ok ==> r->Ok_0@ == join_plus(self.parts()),
            self.wf() && r is Ok ==> r->Ok_0@.len() > 0,
    {
        let mut out = String::new();
        let mut n: usize = 0;
        let ghost mut parts = Seq::<Seq<char>>::empty();
        if self.control {
            push_part(&mut out, n, "Control");
            proof {
                lemma_join_push(parts, "Control"@);
                parts = parts.push("Control"@);
            }
            n = n + 1;
        }
        if self.shift {
            push_part(&mut out, n, "Shift");
            proof {
                lemma_join_push(parts, "Shift"@);
                parts = parts.push("Shift"@);
            }
            n = n + 1;
        }
        if self.alt {
            push_part(&mut out, n, "Alt");
            proof {
                lemma_join_push(parts, "Alt"@);
                parts = parts.push("Alt"@);
            }
            n = n + 1;
        }
        if self.command {
            push_part(&mut out, n, "Command");
            proof {
                lemma_join_push(parts, "Command"@);
                parts = parts.push("Command"@);
            }
            n = n + 1;
        }
        match &self.main {
            Some(name) => {
                push_part(&mut out, n, name.as_str());
                proof {
                    lemma_join_push(parts, name@);
                    parts = parts.push(name@);
                }
                n = n + 1;
            },
            None => {},
        }
        assert(parts == self.parts());
        proof {
            if n > 0 && self.wf() {
                combo_parts_are_distinct_and_nonempty(*self);
                lemma_join_nonempty(parts);
            }
        }
        if n == 0 {
            Err(CaptureError::EmptyCapture)
        } else {
            Ok(out)
        }
    }
}

/// Where a capture gesture stands.
#[derive(Clone, Copy, Debug, PartialEq, Eq, Structural)]
pub enum CapturePhase {
    /// Waiting for every key to be released before the gesture.
    AwaitRelease,
    /// Waiting for the first key of the gesture.
    AwaitPress,
    /// Keys are down; gathering until all are released again.
    Gathering,
    /// The gesture ended.
    Done,
}

/// A hotkey capture fed with one snapshot of the pressed keys per poll.
#[derive(Debug)]
pub struct ComboCapture {
    pub phase: CapturePhase,
    pub keys: ComboKeys,
}

impl ComboCapture {
    /// The capture after one poll that saw `pressed` down.
    pub open spec fn observed(self, pressed: Seq<Key>) -> ComboCapture {
        match self.phase {
            CapturePhase::AwaitRelease => if pressed.len() == 0 {
                ComboCapture { phase: CapturePhase::AwaitPress, keys: self.keys }
            } else {
                self
            },
            CapturePhase::AwaitPress => if pressed.len() == 0 {
                self
            } else {
                ComboCapture { phase: CapturePhase::Gathering, keys: self.keys.with_keys(pressed) }
            },
            CapturePhase::Gathering => if pressed.len() == 0 {
                ComboCapture { phase: CapturePhase::Done, keys: self.keys }
            } else {
                ComboCapture { phase: CapturePhase::Gathering, keys: self.keys.with_keys(pressed) }
            },
            CapturePhase::Done => self,
        }
    }

    /// The capture after a run of polls, in order.
    pub open spec fn observed_all(self, polls: Seq<Vec<Key>>) -> ComboCapture
        decreases polls.len(),
    {
        if polls.len() == 0 {
            self
        } else {
            self.observed_all(polls.drop_last()).observed(polls.last()@)
        }
    }

    pub fn new() -> (r: ComboCapture)
        ensures
            r.phase == CapturePhase::AwaitRelease,
            r.keys.is_empty(),
    {
        ComboCapture { phase: CapturePhase::AwaitRelease, keys: ComboKeys::new() }
    }

    /// Takes one poll; returns whether the gesture has ended.
    pub fn observe(&mut self, pressed: &Vec<Key>) -> (done: bool)
        ensures
            *final(self) == old(self).observed(pressed@),
            done == (final(self).phase == CapturePhase::Done),
    {
        match self.phase {
            CapturePhase::AwaitRelease => {
                if pressed.len() == 0 {
                    self.phase = CapturePhase::AwaitPress;
                }
            },
            CapturePhase::AwaitPress => {
                if pressed.len() > 0 {
                    self.keys.add_all(pressed);
                    self.phase = CapturePhase::Gathering;
                }
            },
            CapturePhase::Gathering => {
                if pressed.len() == 0 {
                    self.phase = CapturePhase::Done;
                } else {
                    self.keys.add_all(pressed);
                }
            },
            CapturePhase::Done => {},
        }
        self.phase == CapturePhase::Done
    }

    /// The combination gathered so far.
    pub fn finish(&self) -> (r: Result<String, CaptureError>)
        ensures
            self.keys.is_empty() <==> r == Err::<String, CaptureError>(CaptureError::EmptyCapture),
            !self.keys.is_empty() ==> r is Ok,
            r is Ok ==> r->Ok_0@ == join_plus(self.keys.parts()),
            self.keys.wf() && r is Ok ==> r->Ok_0@.len() > 0,
    {
        self.keys.combo_string()
    }
}

proof fn lemma_observed_all_wf(cap: ComboCapture, polls: Seq<Vec<Key>>)
    requires
        cap.keys.wf(),
    ensures
        cap.observed_all(polls).keys.wf(),
    decreases polls.len(),
{
    if polls.len() > 0 {
        lemma_observed_all_wf(cap, polls.drop_last());
        lemma_with_keys_wf(cap.observed_all(polls.drop_last()).keys, polls.last()@);
    }
}

/// Runs a whole capture over a sequence of polls and renders what it
/// gathered; polls after the gesture's end change nothing, and running out
/// of polls stands for a timeout.
pub fn capture_hotkey_combo(polls: &Vec<Vec<Key>>) -> (r: Result<String, CaptureError>)
    ensures
        ({
            let keys = ComboCapture {
                phase: CapturePhase::AwaitRelease,
                keys: ComboKeys { control: false, shift: false, alt: false, command: false, main: None },
            }.observed_all(polls@).keys;
            &&& keys.is_empty() <==> r == Err::<String, CaptureError>(CaptureError::EmptyCapture)
            &&& !keys.is_empty() ==> r is Ok
            &&& r is Ok ==> r->Ok_0@ == join_plus(keys.parts())
            &&& r is Ok ==> r->Ok_0@.len() > 0
            &&& keys.wf()
        }),
{
    let mut cap = ComboCapture::new();
    let ghost start = cap;
    assert(start == ComboCapture {
        phase: CapturePhase::AwaitRelease,
        keys: ComboKeys { control: false, shift: false, alt: false, command: false, main: None },
    });
    let mut i: usize = 0;
    while i < polls.len()
        invariant
            i <= polls@.len(),
            cap == start.observed_all(polls@.take(i as int)),
        decreases polls@.len() - i,
    {
        cap.observe(&polls[i]);
        proof {
            assert(polls@.take(i as int + 1).drop_last() =~= polls@.take(i as int));
        }
        i = i + 1;
    }
    proof {
        assert(polls@.take(i as int) =~= polls@);
        lemma_observed_all_wf(start, polls@);
    }
    cap.finish()
}

/// Polls that never see a key down gather nothing, so the capture they
/// drive ends in `EmptyCapture`.
pub proof fn silent_polls_capture_nothing(cap: ComboCapture, polls: Seq<Vec<Key>>)
    requires
        cap.keys.is_empty(),
        cap.phase != CapturePhase::Gathering,
        forall|i: int| 0 <= i < polls.len() ==> (#[trigger] polls[i])@.len() == 0,
    ensures
        cap.observed_all(polls).keys.is_empty(),
        cap.observed_all(polls).phase != CapturePhase::Gathering,
    decreases polls.len(),
{
    if polls.len() > 0 {
        let rest = polls.drop_last();
        assert forall|i: int| 0 <= i < rest.len() implies (#[trigger] rest[i])@.len() == 0 by {
            assert(rest[i] == polls[i]);
        }
        silent_polls_capture_nothing(cap, rest);
        assert(polls.last() == polls[polls.len() - 1]);
    }
}

/// Appends one part, preceded by `+` unless it is the first.
fn push_part(out: &mut String, count: usize, part: &str)
    ensures
        final(out)@ == (if count == 0 {
            old(out)@ + part@
        } else {
            old(out)@ + seq!['+'] + part@
        }),
{
    if count > 0 {
        proof {
            reveal_strlit("+");
        }
        out.append("+");
    }
    out.append(part);
}

} // verus!
