# csgo_sdk

A verified model of the data a Source-engine game client works with, written in
Verus.

- `netvar`: the networked-property offset table. Classes' property tables are walked
  (nested data tables included) and every offset is stored under a `table->property`
  key; lookups give 0 for unknown keys.
- `memory`: objects identified by their address (`Interface`, `NotNull`), a copied
  range of process memory with little-endian reads, and the code-signature scan of a
  loaded PE module.
- `sdk`: hit groups and armor coverage, weapon item indices and their icon glyphs,
  button and font flags, frame stages, colors, the entity reads (health, active
  weapon, weapon list), studio-model bones.
- `font`, `features`, `events`, `config`: the font setup plan, UTF-16 text for the
  surface, feature names, what the watermark draws, the enemy filter, the top-panel
  test of the paint hook, the third-person write target and the configuration types.

Floating-point parts (the configuration's float settings, damage multipliers, color
blending) and JSON parsing live in `app/`.
