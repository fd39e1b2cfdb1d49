# tradovate_robot

The decision logic of a futures trading robot, verified with Verus.

- `src/` is the library: the strategy phases (`state`), the account snapshot
  that the strategy reads (`position`), order sides and their request labels
  (`order`), the robot's step function (`robot`), and the laws that hold of
  every step (`laws`).
- `app/` is the program around it: the Tradovate API connections, the market
  data and account threads, and the loop that performs the pauses, log lines
  and order requests that each step of the robot returns.
