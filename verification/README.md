# api_desc

A verified description of an API as data: modules (`Mod`) hold items, and
functions (`Fn`) carry a link name, documented parameters (`Field`) and a
result `Type`.

- `src/item.rs`: the data types and their views as plain values
  (character sequences for names and documentation lines).
- `src/clock.rs`: `new`, which builds the description of the clock module,
  and `clock_module`, the value its contract says it builds.
- `tests/clock.rs`: tests of the clock description.
