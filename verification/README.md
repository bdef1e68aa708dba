# ui_style

Verified style logic for UI nodes, written in Verus.

- `src/interaction.rs`: interaction states of a node and interaction styles of an animation.
- `src/vals.rs`: `StaticVals` and `AnimatedVals`, per-state style values and which value each state shows.
- `src/lock.rs`: lockable style attributes, the set of locked attributes (bevy's hash set behind trusted wrappers), and the lock check of style commands.
- `src/builder.rs`: the `LogicalEq` trait, `StyleBuilder`, which keeps one entry per logical attribute, and its interactive and animated views.
- `src/commands.rs`: what each style command writes to a node.
- `app/`: the bevy side, not verified: entity command handles, the commands that act on the world, custom callback styles and serializable copies of the value types.
