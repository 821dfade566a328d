# explorer-robot

Firmware of a tracked robot with a COIN-D6 spinning LiDAR, an ICM-20948 IMU and a touch
panel, on an RP2350.

The decisions of the firmware are a library that Verus verifies; the tasks around it only
talk to the hardware.

## Layout

- `src/coin_d6`: the LiDAR's wire format, its byte-stream decoder, the device-info
  handshake, the warm-up and the reduction of revolutions onto a grid of bearings.
- `src/lidar_cloud.rs`: the one-degree point cloud around the robot and its front sector.
- `src/ranking.rs`: medians and means of integers.
- `src/system`: events, the activity on screen, what the robot perceives.
- `src/task`: one module per task. Procedures that alternate decisions and outside work
  (`task/dialogue.rs`) are machines: each turn says what to do and what to find out, and
  each answer leads to the next turn.
- `tests`: the library from the outside.
- `app`: the firmware's tasks, on Embassy.

Laws that relate several functions are public proof functions whose names start with
`law_`.

## Units

There is no floating point in the library. Angles are in microdegrees (`_udeg`), ranges in
millimetres or tenths of a centimetre, distances driven in micrometres (`_um`), factors in
parts per million (`_ppm`), magnetic fields in nanotesla, voltages in millivolts.
