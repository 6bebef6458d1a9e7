# soccer

Discrete logic of a soccer simulation, verified with Verus.

`src/` is the library. It holds

- the tuning knobs, their ranges and the overlays that change them (`tunables`, `overlay`, `flags`),
- the coordination of both teams through a tick (`step`, `coordination`, `central`, `commitment`,
  `strategy`, `marking`, `observe`),
- the formation program of a team: its layout, the tick that is written into it, the guidance that
  is read out of it, and the local refinement (`formation`),
- the winger's decision to pinch in and how it is learned (`winger`),
- player rotation over the periods of a match: rules, linear and integer programs, exact and
  greedy plans, simulated matches (`rotation`),
- team genomes, ratings, confidence bounds and promotions (`genome`, `elo`, `confidence`,
  `eval_gate`).

Numbers are kept as the bit patterns of `f64` (`number`). Their order and sign are decided in the
library. Sums, products and other arithmetic are functions that the caller hands in; every contract
says which operations are applied to which numbers, in which order.

`app/` supplies the arithmetic, reads the environment, parses settings, and runs a tick with a
solver. `tests/` runs the library on concrete values.
