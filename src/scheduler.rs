use crate::ai::{PlayerAI, RandomAI};
use crate::comp::Position;
use crate::entity::TurnTaker;
use crate::rng::stream_byte;
use vstd::prelude::*;

verus! {

/// The way an actor decides what to do on its turn.
pub enum DecisionKind {
    PlayerControlled(PlayerAI),
    RandomWalker(RandomAI),
}

/// The directional intents held during one tick.
#[derive(Clone, Copy, Debug, PartialEq, Eq, Structural)]
pub struct Intent {
    pub up: bool,
    pub down: bool,
    pub left: bool,
    pub right: bool,
}

impl Intent {
    pub open spec fn any_spec(self) -> bool {
        self.up || self.down || self.left || self.right
    }

    /// The sum of the pressed directions along x.
    pub open spec fn dx(self) -> int {
        (if self.right { 1int } else { 0int }) - (if self.left { 1int } else { 0int })
    }

    /// The sum of the pressed directions along y.
    pub open spec fn dy(self) -> int {
        (if self.up { 1int } else { 0int }) - (if self.down { 1int } else { 0int })
    }

    /// `p` leaves room for a unit step in each pressed direction.
    pub open spec fn room_at(self, p: Position) -> bool {
        &&& self.up ==> p.y < i32::MAX
        &&& self.down ==> p.y > i32::MIN
        &&& self.left ==> p.x > i32::MIN
        &&& self.right ==> p.x < i32::MAX
    }

    /// No direction pressed.
    pub fn none() -> (r: Intent)
        ensures
            !r.any_spec(),
    {
        Intent { up: false, down: false, left: false, right: false }
    }

    /// Whether any direction is pressed.
    pub fn any(&self) -> (r: bool)
        ensures
            r == self.any_spec(),
    {
        self.up || self.down || self.left || self.right
    }
}

/// A scheduling participant.
pub struct Actor {
    pub position: Position,
    pub turn_taker: TurnTaker,
    pub mind: DecisionKind,
}

impl Actor {
    pub open spec fn wf(&self) -> bool {
        self.turn_taker.wf()
    }

    /// A player-controlled actor with a full budget.
    pub fn player(position: Position, max_energy: i32) -> (r: Actor)
        ensures
            r.position == position,
            r.turn_taker == TurnTaker::new_spec(max_energy),
            r.mind is PlayerControlled,
    {
        Actor {
            position,
            turn_taker: TurnTaker::new(max_energy),
            mind: DecisionKind::PlayerControlled(PlayerAI),
        }
    }
}

/// The step along x that a draw of a random stream selects.
pub open spec fn walk_dx(draw: u8) -> int {
    if draw % 4 == 2 {
        1
    } else if draw % 4 == 3 {
        -1
    } else {
        0
    }
}

/// The step along y that a draw of a random stream selects.
pub open spec fn walk_dy(draw: u8) -> int {
    if draw % 4 == 0 {
        1
    } else if draw % 4 == 1 {
        -1
    } else {
        0
    }
}

/// What a player-controlled turn makes of an actor.
pub open spec fn player_turn(a: Actor, intent: Intent) -> Actor {
    if intent.any_spec() {
        Actor {
            position: a.position.offset(intent.dx(), intent.dy()),
            turn_taker: a.turn_taker.spent(),
            mind: a.mind,
        }
    } else {
        a
    }
}

/// What a random walker's stream yields on its next draw.
pub open spec fn next_draw(a: Actor) -> u8 {
    match a.mind {
        DecisionKind::RandomWalker(ai) => stream_byte(ai.rand.seed_spec(), ai.rand.draws_spec()),
        DecisionKind::PlayerControlled(_) => 0,
    }
}

/// `b` is `a` after a random-walk turn that drew `draw` as one more byte of
/// the same stream.
pub open spec fn walked(a: Actor, draw: u8, b: Actor) -> bool {
    &&& b.position == a.position.offset(walk_dx(draw), walk_dy(draw))
    &&& b.turn_taker == a.turn_taker.spent()
    &&& match (a.mind, b.mind) {
        (DecisionKind::RandomWalker(x), DecisionKind::RandomWalker(y)) => {
            &&& y.rand.seed_spec() == x.rand.seed_spec()
            &&& y.rand.draws_spec() == x.rand.draws_spec() + 1
        },
        _ => false,
    }
}

/// `b` is `a` after its resolver ran once.
pub open spec fn resolved(a: Actor, intent: Intent, b: Actor) -> bool {
    match a.mind {
        DecisionKind::PlayerControlled(_) => b == player_turn(a, intent),
        DecisionKind::RandomWalker(_) => walked(a, next_draw(a), b),
    }
}

/// The actor's position leaves room for whatever step its resolver may take.
pub open spec fn can_act(a: Actor, intent: Intent) -> bool {
    match a.mind {
        DecisionKind::PlayerControlled(_) => intent.room_at(a.position),
        DecisionKind::RandomWalker(_) => a.position.has_room(),
    }
}

/// Resolves a player-controlled turn: each pressed direction is a unit step,
/// and an action is paid for only when some direction is pressed.
pub fn update_player(actor: &mut Actor, intent: Intent)
    requires
        old(actor).wf(),
        intent.room_at(old(actor).position),
    ensures
        *final(actor) == player_turn(*old(actor), intent),
        final(actor).wf(),
{
    if intent.any() {
        if intent.up {
            actor.position.y = actor.position.y + 1;
        }
        if intent.down {
            actor.position.y = actor.position.y - 1;
        }
        if intent.left {
            actor.position.x = actor.position.x - 1;
        }
        if intent.right {
            actor.position.x = actor.position.x + 1;
        }
        actor.turn_taker.spend();
    }
}

/// The unit step that a draw selects: 0 up, 1 down, 2 right, 3 left (mod 4).
pub fn walk_direction(draw: u8) -> (r: (i32, i32))
    ensures
        r.0 == walk_dx(draw),
        r.1 == walk_dy(draw),
{
    let k: u8 = draw % 4;
    if k == 0 {
        (0, 1)
    } else if k == 1 {
        (0, -1)
    } else if k == 2 {
        (1, 0)
    } else {
        (-1, 0)
    }
}

/// Moves a walker by the step that `draw` selects and pays for the action.
pub fn walk(actor: &mut Actor, draw: u8)
    requires
        old(actor).wf(),
        old(actor).position.has_room(),
    ensures
        final(actor).position == old(actor).position.offset(walk_dx(draw), walk_dy(draw)),
        final(actor).turn_taker == old(actor).turn_taker.spent(),
        final(actor).mind == old(actor).mind,
        final(actor).wf(),
{
    let (dx, dy) = walk_direction(draw);
    actor.position.x = actor.position.x + dx;
    actor.position.y = actor.position.y + dy;
    actor.turn_taker.spend();
}

/// Resolves a random-walk turn: one draw from the actor's own stream picks the
/// step, and the action is always paid for.
pub fn update_random_ai(actor: &mut Actor)
    requires
        old(actor).wf(),
        old(actor).position.has_room(),
        old(actor).mind is RandomWalker,
    ensures
        walked(*old(actor), next_draw(*old(actor)), *final(actor)),
        final(actor).wf(),
{
    let draw: u8 = match &mut actor.mind {
        DecisionKind::RandomWalker(ai) => ai.rand.gen(),
        DecisionKind::PlayerControlled(_) => 0,
    };
    walk(actor, draw);
}

/// Every actor has spent its energy.
pub open spec fn all_exhausted(actors: Seq<Actor>) -> bool {
    forall|i: int| 0 <= i < actors.len() ==> actors[i].turn_taker.energy == 0
}

/// An actor with its budget full again.
pub open spec fn refill_one(a: Actor) -> Actor {
    Actor {
        position: a.position,
        turn_taker: TurnTaker { max_energy: a.turn_taker.max_energy, energy: a.turn_taker.max_energy },
        mind: a.mind,
    }
}

/// The registry after the refill check: every budget full if all were spent,
/// else as it was.
pub open spec fn refill_spec(actors: Seq<Actor>) -> Seq<Actor> {
    if all_exhausted(actors) {
        actors.map_values(|a: Actor| refill_one(a))
    } else {
        actors
    }
}

/// Actor `i` is the first, in enumeration order, with energy left.
pub open spec fn first_ready(actors: Seq<Actor>, i: int) -> bool {
    &&& 0 <= i < actors.len()
    &&& actors[i].turn_taker.energy != 0
    &&& forall|j: int| 0 <= j < i ==> actors[j].turn_taker.energy == 0
}

/// `sel` is what selection makes of `actors`: the first actor with energy
/// left, or none if there is none.
pub open spec fn is_selection(actors: Seq<Actor>, sel: Option<usize>) -> bool {
    match sel {
        Some(i) => first_ready(actors, i as int),
        None => all_exhausted(actors),
    }
}

/// What a tick makes of world `w` when the directional intents are `intent`:
/// the refill check, then selection of the first actor with energy left,
/// then that actor's resolver, which touches no other actor.
pub open spec fn ticked(w: World, intent: Intent, v: World) -> bool {
    let s = refill_spec(w.actors@);
    &&& v.turn == if all_exhausted(w.actors@) {
        w.turn + 1
    } else {
        w.turn as int
    }
    &&& is_selection(s, v.active)
    &&& v.actors@.len() == s.len()
    &&& v.active is None ==> v.actors@ == s
    &&& v.active matches Some(i) ==> {
        &&& resolved(s[i as int], intent, v.actors@[i as int])
        &&& forall|j: int| 0 <= j < s.len() && j != i ==> v.actors@[j] == s[j]
    }
}

/// The actor that a tick would select can take its step.
pub open spec fn selected_can_act(actors: Seq<Actor>, intent: Intent) -> bool {
    forall|i: int| first_ready(refill_spec(actors), i) ==> can_act(actors[i], intent)
}

/// Whether `a` can take the step that its resolver may take.
fn actor_can_act(a: &Actor, intent: Intent) -> (r: bool)
    ensures
        r == can_act(*a, intent),
{
    let p = a.position;
    match &a.mind {
        DecisionKind::PlayerControlled(_) => {
            !(intent.up && p.y == i32::MAX) && !(intent.down && p.y == i32::MIN) && !(intent.left
                && p.x == i32::MIN) && !(intent.right && p.x == i32::MAX)
        },
        DecisionKind::RandomWalker(_) => {
            p.x != i32::MIN && p.x != i32::MAX && p.y != i32::MIN && p.y != i32::MAX
        },
    }
}

/// The actor registry, the active marker and the turn counter.
pub struct World {
    /// The actors in creation order, which is the enumeration order.
    pub actors: Vec<Actor>,
    /// The index of the actor that bears the active marker, if any.
    pub active: Option<usize>,
    /// The number of refills so far.
    pub turn: u64,
}

impl World {
    pub open spec fn wf(&self) -> bool {
        &&& forall|i: int| 0 <= i < self.actors@.len() ==> self.actors@[i].wf()
        &&& self.active matches Some(i) ==> i < self.actors@.len()
    }

    /// Whether actor `i` bears the active marker.
    pub open spec fn bears_marker(&self, i: int) -> bool {
        self.active matches Some(k) && k as int == i
    }

    /// An empty registry at turn zero.
    pub fn new() -> (r: World)
        ensures
            r.wf(),
            r.actors@.len() == 0,
            r.active is None,
            r.turn == 0,
    {
        World { actors: Vec::new(), active: None, turn: 0 }
    }

    /// Adds an actor at the end of the enumeration order.
    pub fn spawn(&mut self, actor: Actor)
        requires
            old(self).wf(),
            actor.wf(),
        ensures
            final(self).wf(),
            final(self).actors@ == old(self).actors@.push(actor),
            final(self).active == old(self).active,
            final(self).turn == old(self).turn,
    {
        self.actors.push(actor);
    }

    /// Clear-active: no actor bears the marker afterwards.
    pub fn remove_active_entity(&mut self)
        requires
            old(self).wf(),
        ensures
            final(self).wf(),
            final(self).active is None,
            final(self).actors@ == old(self).actors@,
            final(self).turn == old(self).turn,
    {
        self.active = None;
    }

    /// Refill-check: if every actor has spent its energy, the turn counter
    /// goes up by one and every budget is full again; else nothing changes.
    pub fn check_init_new_turn(&mut self)
        requires
            old(self).wf(),
            all_exhausted(old(self).actors@) ==> old(self).turn < u64::MAX,
        ensures
            final(self).wf(),
            final(self).actors@ == refill_spec(old(self).actors@),
            final(self).turn == if all_exhausted(old(self).actors@) {
                old(self).turn + 1
            } else {
                old(self).turn as int
            },
            final(self).active == old(self).active,
    {
        let mut is_all_empty = true;
        let mut i: usize = 0;
        while i < self.actors.len()
            invariant
                *self == *old(self),
                i <= self.actors@.len(),
                is_all_empty == (forall|j: int| 0 <= j < i ==> self.actors@[j].turn_taker.energy == 0),
            decreases self.actors@.len() - i,
        {
            if self.actors[i].turn_taker.energy != 0 {
                is_all_empty = false;
            }
            i = i + 1;
        }
        assert(is_all_empty == all_exhausted(old(self).actors@));
        if is_all_empty {
            self.turn = self.turn + 1;
            let ghost start = self.actors@;
            let mut k: usize = 0;
            while k < self.actors.len()
                invariant
                    self.wf(),
                    self.active == old(self).active,
                    self.turn == old(self).turn + 1,
                    start == old(self).actors@,
                    k <= self.actors@.len(),
                    self.actors@.len() == start.len(),
                    forall|j: int| 0 <= j < k ==> self.actors@[j] == refill_one(start[j]),
                    forall|j: int| k <= j < start.len() ==> self.actors@[j] == start[j],
                decreases self.actors@.len() - k,
            {
                let m = self.actors[k].turn_taker.max_energy;
                self.actors[k].turn_taker.energy = m;
                k = k + 1;
            }
            assert(self.actors@ =~= refill_spec(start));
        }
    }

    /// Select-active: marks the first actor, in enumeration order, whose
    /// energy is not zero; where there is none, no actor is marked.
    pub fn set_active_entity(&mut self)
        requires
            old(self).wf(),
        ensures
            final(self).wf(),
            final(self).actors@ == old(self).actors@,
            final(self).turn == old(self).turn,
            is_selection(old(self).actors@, final(self).active),
    {
        let mut i: usize = 0;
        while i < self.actors.len()
            invariant
                self.wf(),
                self.actors@ == old(self).actors@,
                self.turn == old(self).turn,
                i <= self.actors@.len(),
                forall|j: int| 0 <= j < i ==> self.actors@[j].turn_taker.energy == 0,
            decreases self.actors@.len() - i,
        {
            if self.actors[i].turn_taker.energy != 0 {
                self.active = Some(i);
                assert(first_ready(self.actors@, i as int));
                return;
            }
            i = i + 1;
        }
        self.active = None;
    }

    /// Whether a tick with these intents may run: the turn counter can go up
    /// if the tick refills, and the actor that will be selected has room for
    /// its step.
    pub fn can_advance(&self, intent: Intent) -> (r: bool)
        ensures
            r == ((all_exhausted(self.actors@) ==> self.turn < u64::MAX) && selected_can_act(
                self.actors@,
                intent,
            )),
    {
        let ghost s = self.actors@;
        let mut i: usize = 0;
        while i < self.actors.len()
            invariant
                s == self.actors@,
                i <= s.len(),
                forall|j: int| 0 <= j < i ==> s[j].turn_taker.energy == 0,
            decreases s.len() - i,
        {
            if self.actors[i].turn_taker.energy != 0 {
                assert(!all_exhausted(s));
                assert(refill_spec(s) == s);
                assert(forall|j: int| first_ready(s, j) ==> j == i);
                assert(first_ready(refill_spec(s), i as int));
                let ok = actor_can_act(&self.actors[i], intent);
                assert(ok == selected_can_act(s, intent)) by {
                    if selected_can_act(s, intent) {
                        assert(can_act(s[i as int], intent));
                    }
                    if ok {
                        assert forall|j: int| first_ready(refill_spec(s), j) implies can_act(
                            s[j],
                            intent,
                        ) by {
                            assert(j == i);
                        }
                    }
                }
                return ok;
            }
            i = i + 1;
        }
        assert(all_exhausted(s));
        if self.turn == u64::MAX {
            return false;
        }
        let ghost t = refill_spec(s);
        assert(t.len() == s.len());
        assert forall|j: int| 0 <= j < s.len() implies t[j] == refill_one(s[j]) by {
            assert(t == s.map_values(|a: Actor| refill_one(a)));
        }
        let mut k: usize = 0;
        while k < self.actors.len()
            invariant
                s == self.actors@,
                self.turn < u64::MAX,
                t == refill_spec(s),
                all_exhausted(s),
                forall|j: int| 0 <= j < s.len() ==> t[j] == refill_one(s[j]),
                k <= s.len(),
                forall|j: int| 0 <= j < k ==> s[j].turn_taker.max_energy == 0,
            decreases s.len() - k,
        {
            if self.actors[k].turn_taker.max_energy != 0 {
                assert(t[k as int].turn_taker.energy != 0);
                assert forall|j: int| first_ready(t, j) implies j == k by {
                    if j < k {
                        assert(t[j].turn_taker.energy == 0);
                    }
                }
                assert(first_ready(t, k as int));
                let ok = actor_can_act(&self.actors[k], intent);
                assert(ok == selected_can_act(s, intent)) by {
                    if selected_can_act(s, intent) {
                        assert(can_act(s[k as int], intent));
                    }
                    if ok {
                        assert forall|j: int| first_ready(t, j) implies can_act(s[j], intent) by {
                            assert(j == k);
                        }
                    }
                }
                return ok;
            }
            k = k + 1;
        }
        assert forall|j: int| !first_ready(t, j) by {
            if 0 <= j < t.len() {
                assert(t[j].turn_taker.energy == 0);
            }
        }
        true
    }

    /// Resolve-turn: runs the resolver of the actor that bears the marker,
    /// if any, on that actor alone.
    pub fn resolve_turn(&mut self, intent: Intent)
        requires
            old(self).wf(),
            old(self).active matches Some(i) ==> can_act(old(self).actors@[i as int], intent),
        ensures
            final(self).wf(),
            final(self).active == old(self).active,
            final(self).turn == old(self).turn,
            final(self).actors@.len() == old(self).actors@.len(),
            old(self).active is None ==> final(self).actors@ == old(self).actors@,
            old(self).active matches Some(i) ==> {
                &&& resolved(old(self).actors@[i as int], intent, final(self).actors@[i as int])
                &&& forall|j: int|
                    0 <= j < old(self).actors@.len() && j != i ==> final(self).actors@[j]
                        == old(self).actors@[j]
            },
    {
        match self.active {
            Some(i) => {
                let is_player = match &self.actors[i].mind {
                    DecisionKind::PlayerControlled(_) => true,
                    DecisionKind::RandomWalker(_) => false,
                };
                if is_player {
                    update_player(&mut self.actors[i], intent);
                } else {
                    update_random_ai(&mut self.actors[i]);
                }
            },
            None => {},
        }
    }

    /// One tick: clear-active, refill-check, select-active, resolve-turn,
    /// in that order.
    pub fn advance_tick(&mut self, intent: Intent)
        requires
            old(self).wf(),
            all_exhausted(old(self).actors@) ==> old(self).turn < u64::MAX,
            selected_can_act(old(self).actors@, intent),
        ensures
            final(self).wf(),
            ticked(*old(self), intent, *final(self)),
    {
        let ghost s = self.actors@;
        self.remove_active_entity();
        self.check_init_new_turn();
        assert(forall|j: int| 0 <= j < s.len() ==> #[trigger] self.actors@[j].position == s[j].position
            && self.actors@[j].mind == s[j].mind);
        self.set_active_entity();
        self.resolve_turn(intent);
    }
}

/// Whatever the registry, at most one actor bears the active marker.
pub proof fn lemma_at_most_one_marker(w: World, i: int, j: int)
    requires
        0 <= i < w.actors@.len(),
        0 <= j < w.actors@.len(),
        w.bears_marker(i),
        w.bears_marker(j),
    ensures
        i == j,
{
}

/// Selection depends on the energies in enumeration order alone: two
/// registries that agree on them select the same actor.
pub proof fn lemma_selection_deterministic(
    a: Seq<Actor>,
    b: Seq<Actor>,
    sa: Option<usize>,
    sb: Option<usize>,
)
    requires
        a.len() == b.len(),
        forall|i: int| 0 <= i < a.len() ==> a[i].turn_taker.energy == b[i].turn_taker.energy,
        is_selection(a, sa),
        is_selection(b, sb),
    ensures
        sa == sb,
{
    match (sa, sb) {
        (Some(x), Some(y)) => {
            if x < y {
                assert(b[x as int].turn_taker.energy == 0);
            } else if y < x {
                assert(a[y as int].turn_taker.energy == 0);
            }
        },
        (Some(x), None) => {
            assert(b[x as int].turn_taker.energy == 0);
        },
        (None, Some(y)) => {
            assert(a[y as int].turn_taker.energy == 0);
        },
        (None, None) => {},
    }
}

/// After a refill check, at least one actor has energy left, unless some
/// budget is empty; so selection then finds an actor.
pub proof fn lemma_refill_leaves_one_ready(actors: Seq<Actor>)
    requires
        actors.len() > 0,
        forall|i: int| 0 <= i < actors.len() ==> actors[i].wf() && actors[i].turn_taker.max_energy > 0,
    ensures
        !all_exhausted(refill_spec(actors)),
{
    if all_exhausted(actors) {
        assert(refill_spec(actors)[0].turn_taker.energy == actors[0].turn_taker.max_energy);
    } else {
        let k = choose|k: int| 0 <= k < actors.len() && actors[k].turn_taker.energy != 0;
        assert(refill_spec(actors)[k].turn_taker.energy != 0);
    }
}

/// What a tick can tell of an actor: where it stands, its budget, and for a
/// random walker its seed and how far its stream has been drawn.
pub open spec fn observed(a: Actor) -> (Position, TurnTaker, Option<(u64, nat)>) {
    (
        a.position,
        a.turn_taker,
        match a.mind {
            DecisionKind::RandomWalker(ai) => Some((ai.rand.seed_spec(), ai.rand.draws_spec())),
            DecisionKind::PlayerControlled(_) => None,
        },
    )
}

/// Two registries that agree, actor by actor in enumeration order, on what
/// a tick can tell.
pub open spec fn same_course(s: Seq<Actor>, t: Seq<Actor>) -> bool {
    &&& s.len() == t.len()
    &&& forall|i: int| 0 <= i < s.len() ==> observed(s[i]) == observed(t[i])
}

/// A resolver's outcome is fixed by what can be told of the actor and by
/// the intents: a walker seeded alike and drawn alike takes the same step.
pub proof fn lemma_resolve_reproducible(a: Actor, b: Actor, intent: Intent, a2: Actor, b2: Actor)
    requires
        observed(a) == observed(b),
        resolved(a, intent, a2),
        resolved(b, intent, b2),
    ensures
        observed(a2) == observed(b2),
{
    match (a.mind, b.mind) {
        (DecisionKind::RandomWalker(x), DecisionKind::RandomWalker(y)) => {
            assert(next_draw(a) == next_draw(b));
        },
        (DecisionKind::PlayerControlled(_), DecisionKind::PlayerControlled(_)) => {},
        _ => {
            assert(observed(a).2 != observed(b).2);
        },
    }
}

/// Two worlds at the same turn that agree on what a tick can tell still agree
/// after a tick with the same intents: a registry whose walkers are seeded
/// alike follows the same path, tick after tick.
pub proof fn lemma_tick_reproducible(w1: World, w2: World, intent: Intent, v1: World, v2: World)
    requires
        w1.turn == w2.turn,
        same_course(w1.actors@, w2.actors@),
        ticked(w1, intent, v1),
        ticked(w2, intent, v2),
    ensures
        v1.turn == v2.turn,
        v1.active == v2.active,
        same_course(v1.actors@, v2.actors@),
{
    let s1 = w1.actors@;
    let s2 = w2.actors@;
    assert(all_exhausted(s1) == all_exhausted(s2)) by {
        if all_exhausted(s1) {
            assert forall|i: int| 0 <= i < s2.len() implies s2[i].turn_taker.energy == 0 by {
                assert(observed(s1[i]) == observed(s2[i]));
            }
        }
        if all_exhausted(s2) {
            assert forall|i: int| 0 <= i < s1.len() implies s1[i].turn_taker.energy == 0 by {
                assert(observed(s1[i]) == observed(s2[i]));
            }
        }
    }
    let r1 = refill_spec(s1);
    let r2 = refill_spec(s2);
    assert(same_course(r1, r2)) by {
        if all_exhausted(s1) {
            assert forall|i: int| 0 <= i < r1.len() implies observed(r1[i]) == observed(r2[i]) by {
                assert(observed(s1[i]) == observed(s2[i]));
                assert(r1[i] == refill_one(s1[i]));
                assert(r2[i] == refill_one(s2[i]));
            }
        }
    }
    assert forall|i: int| 0 <= i < r1.len() implies r1[i].turn_taker.energy
        == r2[i].turn_taker.energy by {
        assert(observed(r1[i]) == observed(r2[i]));
    }
    lemma_selection_deterministic(r1, r2, v1.active, v2.active);
    assert forall|j: int| 0 <= j < v1.actors@.len() implies observed(v1.actors@[j]) == observed(
        v2.actors@[j],
    ) by {
        assert(observed(r1[j]) == observed(r2[j]));
        if v1.active matches Some(k) && k as int == j {
            lemma_resolve_reproducible(r1[j], r2[j], intent, v1.actors@[j], v2.actors@[j]);
        }
    }
}

/// An actor that keeps energy holds back the refill: the turn counter and
/// every budget stay as they are, whatever the others hold.
pub proof fn lemma_idle_actor_blocks_refill(actors: Seq<Actor>, p: int)
    requires
        0 <= p < actors.len(),
        actors[p].turn_taker.energy != 0,
    ensures
        !all_exhausted(actors),
        refill_spec(actors) == actors,
{
}

} // verus!
