# sbepistats

A Minecraft-inspired stat system for Bevy, with its logic verified by Verus.

A stat has a base value and a total. Every update clears the total back to the
base, multiplies it by one plus the sum of the multiply-before modifiers, adds
the sum of the additive modifiers, and multiplies it by one plus the sum of the
multiply-after modifiers.

- `src/` is the verified library: stat data types (`Add`, `Mul`, with exact
  integer implementations), stats and the steps of an update, the sets of an
  update and what each registration places in them, a model of one whole
  update with its laws (the total formulas, recomputation from the base,
  stability, idempotent registration, neutral default modifiers, ordering
  between stat types), and the `StatType` derive, from the text of a type
  definition to its implementation.
- `app/` connects the library to Bevy: the `Stat` component, the stat
  systems, the `AppExt` registration methods, the `bevy_auto_plugin` build
  hooks, the token side of the derive (rendering the implementation), and an `f32` data type.
- `tests/` runs the library through whole updates on integer and `f32` stats.
