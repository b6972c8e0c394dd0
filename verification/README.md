# bjr_logic

Control logic of a ball juggling robot: a plate on three stepper-driven
pistons that keeps a ball in a pattern.

`src/` is the verified library. It holds the decisions of the robot, each
with a contract proved by Verus:

- `event_handler`: the operating state machine and its transition table;
- `event_queue`: the bounded event queue (heapless `MpMcQueue`);
- `button_handler`: short, long and double press detection;
- `error_handler`: the reaction to an error of each severity;
- `homing`: the homing sequence of the three motors against their limit switches;
- `limits`: ignore / warn / clamp / reject checks of a value against its bounds;
- `parameter_manager`: the typed parameter store;
- `trim`: the sliding window of plate angle samples behind the trim parameters;
- `logic_runner`: the cycle schedule;
- `state_manager`, `state_runners`: which runner serves which state, and the
  runners without floating point work;
- `telemetry`, `menu`, `motor`, `control`: field layout, command helpers and
  device dispatch.

`app/` is the host program around it: the mock board, console menu,
telemetry link, and the floating point kinematics and control laws.

The tests under `tests/` exercise the library on concrete values.
