# spell_classify

Classifies the spells of a game HUD into the variants it draws, and picks each
spell's icon and color.

- `src/game.rs`: what the game reports about a spell, as plain values.
- `src/keyword.rs`: the keywords magic overhauls attach to spells, and how
  keyword strings are recognised (exact match on a keyword's name).
- `src/spell.rs`: `SpellType::new`, which fills in a missing damage type from
  the keywords and decides the spell's variant, keywords first, archetype second.
- `src/icon.rs`: the color and icon of a classified spell.
- `src/laws.rs`: properties of the classification as a whole.

The game lookup of what item a bound-weapon spell summons is done by the caller,
which passes the item's kind to `SpellType::new`.
